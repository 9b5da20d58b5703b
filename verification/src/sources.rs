//! Loaded source texts, their identities, and the place of a span inside a text.

use std::collections::HashMap;
use vstd::prelude::*;
use vstd::string::*;
use vstd::utf8::*;
use crate::span::Span;

verus! {

/// Identity of one loaded source text. The value zero is reserved for "no source".
#[derive(Clone, Copy, Debug, PartialEq, Eq, Hash, Structural)]
pub struct SourceId {
    pub uuid: u128,
}

/// `uuid::Uuid::new_v4` followed by `Uuid::as_u128`: a random identifier.
/// Whatever the random bits are, the version field (bits 76 to 79) holds 4
/// and the two top bits of the variant field (bits 62 and 63) hold binary 10.
#[verifier::external_body]
fn random_uuid() -> (v: u128)
    ensures
        v & 0xF000_C000_0000_0000_0000 == 0x4000_8000_0000_0000_0000,
{
    uuid::Uuid::new_v4().as_u128()
}

impl Default for SourceId {
    fn default() -> (id: SourceId)
        ensures
            id.uuid == 0,
    {
        SourceId { uuid: 0 }
    }
}

impl SourceId {
    pub open spec fn is_null_spec(&self) -> bool {
        self.uuid == 0
    }

    /// A fresh random identity; it is never the null identity.
    pub fn new() -> (id: SourceId)
        ensures
            !id.is_null_spec(),
            id.uuid & 0xF000_C000_0000_0000_0000 == 0x4000_8000_0000_0000_0000,
    {
        let v: u128 = random_uuid();
        assert(v != 0) by (bit_vector)
            requires
                v & 0xF000_C000_0000_0000_0000 == 0x4000_8000_0000_0000_0000,
        ;
        SourceId { uuid: v }
    }

    /// The identity that stands for no source at all.
    pub fn null() -> (id: SourceId)
        ensures
            id.uuid == 0,
            id.is_null_spec(),
    {
        SourceId { uuid: 0 }
    }

    pub fn is_null(&self) -> (null: bool)
        ensures
            null == self.is_null_spec(),
    {
        self.uuid == 0
    }
}

/// The byte that ends a line.
pub open spec fn newline() -> u8 {
    10
}

/// Number of line ends among `bytes`.
pub open spec fn count_newlines(bytes: Seq<u8>) -> nat
    decreases bytes.len(),
{
    if bytes.len() == 0 {
        0
    } else {
        count_newlines(bytes.drop_last()) + if bytes.last() == newline() {
            1nat
        } else {
            0nat
        }
    }
}

/// Offset of the last line end among `bytes`, or -1 where there is none.
pub open spec fn last_newline(bytes: Seq<u8>) -> int
    decreases bytes.len(),
{
    if bytes.len() == 0 {
        -1
    } else if bytes.last() == newline() {
        bytes.len() - 1
    } else {
        last_newline(bytes.drop_last())
    }
}

/// Line number of byte offset `index`, counted from 1: one more than the
/// number of line ends strictly before it.
pub open spec fn line_of(bytes: Seq<u8>, index: int) -> int {
    1 + (count_newlines(bytes.take(index)) as int)
}

/// Column of byte offset `index`: its distance in bytes from the line end
/// before it, or `index` itself on the first line.
pub open spec fn column_of(bytes: Seq<u8>, index: int) -> int {
    let last = last_newline(bytes.take(index));
    if last < 0 {
        index
    } else {
        index - last
    }
}

/// `last_newline` finds a line end, and no line end follows it.
pub proof fn lemma_last_newline(bytes: Seq<u8>)
    ensures
        -1 <= last_newline(bytes) < bytes.len(),
        last_newline(bytes) >= 0 ==> bytes[last_newline(bytes)] == newline(),
        forall|j: int| last_newline(bytes) < j < bytes.len() ==> bytes[j] != newline(),
        count_newlines(bytes) <= bytes.len(),
        (last_newline(bytes) < 0) == (count_newlines(bytes) == 0),
    decreases bytes.len(),
{
    if bytes.len() > 0 {
        let front = bytes.drop_last();
        lemma_last_newline(front);
        assert forall|j: int| last_newline(bytes) < j < bytes.len() implies bytes[j]
            != newline() by {
            if j < front.len() {
                assert(front[j] == bytes[j]);
            }
        }
    }
}

/// A source text together with the path it was loaded from.
#[derive(Clone, Debug)]
pub struct Source {
    path: String,
    source: String,
}

impl Source {
    /// The path the text was loaded from.
    pub closed spec fn path_spec(&self) -> Seq<char> {
        self.path@
    }

    /// The characters of the text.
    pub closed spec fn text(&self) -> Seq<char> {
        self.source@
    }

    /// The text as stored: the UTF-8 encoding of its characters.
    pub open spec fn bytes(&self) -> Seq<u8> {
        encode_utf8(self.text())
    }

    /// `span` lies inside the text, starts and ends between characters, and
    /// starts below the largest machine word.
    pub open spec fn covers_spec(&self, span: Span) -> bool {
        &&& span.index < usize::MAX
        &&& span.index + span.length <= self.bytes().len()
        &&& is_char_boundary(self.bytes(), span.index as int)
        &&& is_char_boundary(self.bytes(), span.index + span.length)
    }

    pub fn new(path: &str, source: &str) -> (s: Source)
        ensures
            s.path_spec() == path@,
            s.text() == source@,
    {
        Source { path: path.to_owned(), source: source.to_owned() }
    }

    pub fn path(&self) -> (p: &str)
        ensures
            p@ == self.path_spec(),
    {
        self.path.as_str()
    }

    pub fn source(&self) -> (s: &str)
        ensures
            s@ == self.text(),
    {
        self.source.as_str()
    }

    /// Tests whether `span` can be located in this text.
    pub fn covers(&self, span: Span) -> (inside: bool)
        ensures
            inside == self.covers_spec(span),
    {
        let text = self.source.as_str();
        let len: usize = text.as_bytes().len();
        if span.index == usize::MAX || span.length > len || span.index > len - span.length {
            return false;
        }
        text.is_char_boundary(span.index) && text.is_char_boundary(span.index + span.length)
    }

    /// Locates `span` in this text.
    pub fn span(&self, span: Span) -> (located: SourceSpan<'_>)
        requires
            self.covers_spec(span),
        ensures
            located.describes(self, span),
    {
        SourceSpan::new(self, span)
    }
}

/// A span located in its text: the line and column where it starts, the
/// path of the text, and the text it covers.
pub struct SourceSpan<'a> {
    line: usize,
    column: usize,
    path: &'a str,
    source: &'a str,
    span: Span,
}

impl<'a> SourceSpan<'a> {
    pub closed spec fn line_spec(&self) -> usize {
        self.line
    }

    pub closed spec fn column_spec(&self) -> usize {
        self.column
    }

    pub closed spec fn path_spec(&self) -> Seq<char> {
        self.path@
    }

    /// The characters of the covered text.
    pub closed spec fn excerpt(&self) -> Seq<char> {
        self.source@
    }

    pub closed spec fn span_spec(&self) -> Span {
        self.span
    }

    /// This value is the place of `span` in `source`.
    pub open spec fn describes(&self, source: &Source, span: Span) -> bool {
        &&& self.span_spec() == span
        &&& self.path_spec() == source.path_spec()
        &&& self.line_spec() == line_of(source.bytes(), span.index as int)
        &&& self.column_spec() == column_of(source.bytes(), span.index as int)
        &&& encode_utf8(self.excerpt()) == source.bytes().subrange(
            span.index as int,
            span.index + span.length,
        )
    }

    pub fn new(source: &'a Source, span: Span) -> (located: SourceSpan<'a>)
        requires
            source.covers_spec(span),
        ensures
            located.describes(source, span),
    {
        let text: &'a str = source.source.as_str();
        let bytes = text.as_bytes();
        let len: usize = bytes.len();
        let mut line: usize = 1;
        let mut column: usize = span.index;
        let mut i: usize = 0;
        proof {
            assert(bytes@.take(0) =~= Seq::<u8>::empty());
        }
        while i < span.index
            invariant
                i <= span.index < usize::MAX,
                span.index <= bytes@.len(),
                line == 1 + count_newlines(bytes@.take(i as int)),
                line <= 1 + i,
                column == if last_newline(bytes@.take(i as int)) < 0 {
                    span.index as int
                } else {
                    span.index - last_newline(bytes@.take(i as int))
                },
            decreases span.index - i,
        {
            proof {
                assert(bytes@.take(i + 1).drop_last() =~= bytes@.take(i as int));
                lemma_last_newline(bytes@.take(i as int));
            }
            if bytes[i] == 10 {
                line = line + 1;
                column = span.index - i;
            }
            i = i + 1;
        }
        let end: usize = span.index + span.length;
        let (head, _) = text.split_at(end);
        proof {
            let all = text.spec_bytes();
            let cut = all.subrange(0, end as int);
            encode_utf8_valid_utf8(text@);
            valid_utf8_split(all, end as int);
            lemma_boundary_of_prefix(all, span.index as int, end as int);
            assert(head.spec_bytes() == cut);
        }
        let (_, excerpt) = head.split_at(span.index);
        proof {
            assert(excerpt.spec_bytes() =~= text.spec_bytes().subrange(
                span.index as int,
                end as int,
            ));
        }
        SourceSpan { line, column, path: source.path.as_str(), source: excerpt, span }
    }

    /// Line of the first byte, counted from 1.
    pub fn line(&self) -> (line: usize)
        ensures
            line == self.line_spec(),
    {
        self.line
    }

    /// Distance in bytes of the first byte from the line end before it.
    pub fn column(&self) -> (column: usize)
        ensures
            column == self.column_spec(),
    {
        self.column
    }

    pub fn path(&self) -> (p: &'a str)
        ensures
            p@ == self.path_spec(),
    {
        self.path
    }

    /// The text that the span covers.
    pub fn source(&self) -> (s: &'a str)
        ensures
            s@ == self.excerpt(),
    {
        self.source
    }

    pub fn span(&self) -> (span: Span)
        ensures
            span == self.span_spec(),
    {
        self.span
    }
}

/// The loaded source texts, each under the identity it was given.
#[derive(Clone, Debug)]
pub struct Sources {
    sources: HashMap<u128, Source>,
}

impl Default for Sources {
    fn default() -> (all: Sources)
        ensures
            all.map() == Map::<u128, Source>::empty(),
    {
        Sources::new()
    }
}

impl Sources {
    /// The loaded texts by the number of their identity.
    pub closed spec fn map(&self) -> Map<u128, Source> {
        self.sources@
    }

    pub fn new() -> (all: Sources)
        ensures
            all.map() == Map::<u128, Source>::empty(),
    {
        Sources { sources: HashMap::new() }
    }

    /// Stores `source` under `id`, in place of what was stored under it before.
    pub fn insert(&mut self, id: SourceId, source: Source)
        ensures
            final(self).map() == old(self).map().insert(id.uuid, source),
    {
        broadcast use vstd::std_specs::hash::group_hash_axioms;

        self.sources.insert(id.uuid, source);
    }

    /// Stores `source` under a fresh random identity and returns that identity.
    pub fn add(&mut self, source: Source) -> (id: SourceId)
        ensures
            !id.is_null_spec(),
            final(self).map() == old(self).map().insert(id.uuid, source),
    {
        let id = SourceId::new();
        self.insert(id, source);
        id
    }

    pub fn get(&self, id: SourceId) -> (found: Option<&Source>)
        ensures
            found == if self.map().contains_key(id.uuid) {
                Some(&self.map()[id.uuid])
            } else {
                None
            },
    {
        broadcast use vstd::std_specs::hash::group_hash_axioms;

        self.sources.get(&id.uuid)
    }

    /// Locates `span` in the text it belongs to: `None` where that text is
    /// not loaded or the span does not fit it.
    pub fn get_span(&self, span: Span) -> (found: Option<SourceSpan<'_>>)
        ensures
            found is Some == (self.map().contains_key(span.source.uuid)
                && self.map()[span.source.uuid].covers_spec(span)),
            found is Some ==> found->0.describes(&self.map()[span.source.uuid], span),
    {
        match self.get(span.source) {
            Some(source) => {
                if source.covers(span) {
                    Some(source.span(span))
                } else {
                    None
                }
            },
            None => None,
        }
    }
}

/// A character boundary of a text is also one of every prefix of the text
/// that ends at a later boundary.
pub proof fn lemma_boundary_of_prefix(bytes: Seq<u8>, index: int, end: int)
    requires
        valid_utf8(bytes),
        0 <= index <= end <= bytes.len(),
        is_char_boundary(bytes, index),
        is_char_boundary(bytes, end),
    ensures
        valid_utf8(bytes.subrange(0, end)),
        is_char_boundary(bytes.subrange(0, end), index),
{
    let prefix = bytes.subrange(0, end);
    valid_utf8_split(bytes, end);
    if index == end {
        is_char_boundary_start_end_of_seq(prefix);
    } else {
        is_char_boundary_iff_not_is_continuation_byte(bytes, index);
        is_char_boundary_iff_not_is_continuation_byte(prefix, index);
    }
}

} // verus!
