use athame::sources::SourceId;
use athame::span::Span;

#[test]
fn merged_span_covers_both() {
    let id = SourceId { uuid: 7 };
    let a = Span::new(3, 4, id);
    let b = Span::new(10, 2, id);
    let merged = a.with(b);
    assert_eq!(merged, Span::new(3, 9, id));
    assert!(merged.index <= a.index.min(b.index));
    assert!(merged.end() >= a.end().max(b.end()));
}

#[test]
fn merging_commutes_within_one_source() {
    let id = SourceId { uuid: 7 };
    let spans = [
        Span::new(0, 0, id),
        Span::new(0, 5, id),
        Span::new(2, 1, id),
        Span::new(4, 10, id),
        Span::new(20, 0, id),
    ];
    for a in spans {
        for b in spans {
            assert_eq!(a.with(b), b.with(a));
            let merged = a.with(b);
            assert!(merged.index <= a.index && merged.index <= b.index);
            assert!(merged.end() >= a.end() && merged.end() >= b.end());
        }
    }
}

#[test]
fn merged_span_keeps_the_source_of_the_receiver() {
    let a = Span::new(1, 2, SourceId { uuid: 1 });
    let b = Span::new(5, 2, SourceId { uuid: 2 });
    assert_eq!(a.with(b).source, SourceId { uuid: 1 });
    assert_eq!(b.with(a).source, SourceId { uuid: 2 });
    assert_ne!(a.with(b), b.with(a));
}

#[test]
fn nested_span_merges_to_the_outer() {
    let id = SourceId { uuid: 9 };
    let outer = Span::new(2, 20, id);
    let inner = Span::new(5, 3, id);
    assert_eq!(outer.with(inner), outer);
    assert_eq!(inner.with(outer), outer);
    assert_eq!(outer.with(outer), outer);
}

#[test]
fn null_span_is_the_sentinel() {
    let null = Span::null();
    assert!(null.is_null());
    assert_eq!(null.index, 0);
    assert_eq!(null.length, 0);
    assert!(null.source.is_null());
    assert_eq!(null.end(), 0);
    assert!(!Span::new(0, 0, SourceId { uuid: 5 }).is_null());
    assert!(!Span::new(0, 1, SourceId::null()).is_null());
    assert!(!Span::new(1, 0, SourceId::null()).is_null());
}

#[test]
fn end_is_index_plus_length() {
    let span = Span::new(11, 31, SourceId::null());
    assert_eq!(span.end(), 42);
}

#[test]
fn fresh_source_ids_are_not_null() {
    let a = SourceId::new();
    let b = SourceId::new();
    assert!(!a.is_null());
    assert!(!b.is_null());
    assert_ne!(a, b);
    assert_eq!((a.uuid >> 76) & 0xf, 4);
    assert_eq!((a.uuid >> 62) & 0x3, 2);
    assert!(SourceId::null().is_null());
}
