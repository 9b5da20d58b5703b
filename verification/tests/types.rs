use athame::data::ClassId;
use athame::float::Float;
use athame::function::Signature;
use athame::ident::Ident;
use athame::integer::Int;
use athame::path::{IdentSegment, Path, PathSegment, SelfSegment};
use athame::span::Span;
use athame::specialization::{Spec, SpecGenerics};
use athame::ty::{ClassType, Type};
use athame::type_eq::types_equal;

fn path(names: &[&str], is_absolute: bool) -> Path {
    let segments = names
        .iter()
        .map(|name| {
            if *name == "self" {
                PathSegment::SelfSegment(SelfSegment { span: Span::null() })
            } else {
                PathSegment::IdentSegment(IdentSegment {
                    name: Ident::new(name, Span::null()),
                    spec: Spec::empty(),
                    span: Span::null(),
                })
            }
        })
        .collect();
    Path { is_absolute, segments, span: Span::null() }
}

fn class(id: usize, names: &[&str], types: Vec<Type>) -> Type {
    Type::Class(ClassType { id: ClassId(id), path: path(names, false), spec: Spec { generics: types } })
}

#[test]
fn integer_types() {
    assert_eq!(Int::i8(), Int { signed: true, size: Some(8) });
    assert_eq!(Int::i16(), Int { signed: true, size: Some(16) });
    assert_eq!(Int::i32(), Int { signed: true, size: Some(32) });
    assert_eq!(Int::i64(), Int { signed: true, size: Some(64) });
    assert_eq!(Int::i128(), Int { signed: true, size: Some(128) });
    assert_eq!(Int::isize(), Int { signed: true, size: None });
    assert_eq!(Int::u8(), Int { signed: false, size: Some(8) });
    assert_eq!(Int::u16(), Int { signed: false, size: Some(16) });
    assert_eq!(Int::u32(), Int { signed: false, size: Some(32) });
    assert_eq!(Int::u64(), Int { signed: false, size: Some(64) });
    assert_eq!(Int::u128(), Int { signed: false, size: Some(128) });
    assert_eq!(Int::usize(), Int { signed: false, size: None });
    assert_eq!(Int::signed(Some(7)), Int::new(true, Some(7)));
    assert_eq!(Int::unsigned(None), Int::new(false, None));
}

#[test]
fn integer_type_names() {
    assert_eq!(Int::i8().to_string(), "i8");
    assert_eq!(Int::i128().to_string(), "i128");
    assert_eq!(Int::isize().to_string(), "isize");
    assert_eq!(Int::u64().to_string(), "u64");
    assert_eq!(Int::usize().to_string(), "usize");
    assert_eq!(Int::new(false, Some(0)).to_string(), "u0");
    assert_eq!(Int::new(true, Some(255)).to_string(), "i255");
}

#[test]
fn floating_point_types() {
    assert_eq!(Float::half(), Float { size: 16 });
    assert_eq!(Float::single(), Float { size: 32 });
    assert_eq!(Float::double(), Float { size: 64 });
    assert_eq!(Float::new(80).size, 80);
    assert_eq!(Float::half().to_string(), "f16");
    assert_eq!(Float::single().to_string(), "f32");
    assert_eq!(Float::double().to_string(), "f64");
    assert_eq!(Float::new(128).to_string(), "f128");
}

#[test]
fn type_constructors() {
    assert_eq!(Type::i8(), Type::Int(Int::i8()));
    assert_eq!(Type::i16(), Type::Int(Int::i16()));
    assert_eq!(Type::i32(), Type::Int(Int::i32()));
    assert_eq!(Type::i64(), Type::Int(Int::i64()));
    assert_eq!(Type::i128(), Type::Int(Int::i128()));
    assert_eq!(Type::isize(), Type::Int(Int::isize()));
    assert_eq!(Type::u8(), Type::Int(Int::u8()));
    assert_eq!(Type::u16(), Type::Int(Int::u16()));
    assert_eq!(Type::u32(), Type::Int(Int::u32()));
    assert_eq!(Type::u64(), Type::Int(Int::u64()));
    assert_eq!(Type::u128(), Type::Int(Int::u128()));
    assert_eq!(Type::usize(), Type::Int(Int::usize()));
    assert_eq!(Type::half(), Type::Float(Float::half()));
    assert_eq!(Type::single(), Type::Float(Float::single()));
    assert_eq!(Type::double(), Type::Float(Float::double()));
    assert_eq!(Type::pointer(Type::Bool), Type::Pointer(Box::new(Type::Bool)));
    assert_eq!(Type::array(Type::Bool, 3), Type::Array(Box::new(Type::Bool), 3));
}

#[test]
fn types_are_written() {
    assert_eq!(Type::Void.to_string(), "void");
    assert_eq!(Type::Bool.to_string(), "bool");
    assert_eq!(Type::i32().to_string(), "i32");
    assert_eq!(Type::double().to_string(), "f64");
    assert_eq!(Type::pointer(Type::pointer(Type::u8())).to_string(), "**u8");
    assert_eq!(Type::array(Type::i16(), 12).to_string(), "[i16; 12]");
    assert_eq!(Type::array(Type::array(Type::Bool, 0), 2).to_string(), "[[bool; 0]; 2]");
    let signature = Signature {
        generics: SpecGenerics::empty(),
        arguments: vec![Type::i32(), Type::pointer(Type::Void)],
        return_ty: Type::Bool,
    };
    assert_eq!(signature.to_string(), "(i32, *void) -> bool");
    assert_eq!(Type::function(signature).to_string(), "(i32, *void) -> bool");
    let nothing = Signature { generics: SpecGenerics::empty(), arguments: vec![], return_ty: Type::Void };
    assert_eq!(nothing.to_string(), "() -> void");
    assert_eq!(class(0, &["a", "B"], vec![Type::i8()]).to_string(), "a::B");
}

#[test]
fn paths_are_written() {
    assert_eq!(path(&["a"], false).to_string(), "a");
    assert_eq!(path(&["a", "b", "c"], false).to_string(), "a::b::c");
    assert_eq!(path(&["a", "b"], true).to_string(), "::a::b");
    assert_eq!(path(&["self", "b"], false).to_string(), "self::b");
    assert_eq!(path(&[], true).to_string(), "::");
    assert_eq!(path(&[], false).to_string(), "");
    let list = PathSegment::IdentSegment(IdentSegment {
        name: Ident::new("List", Span::null()),
        spec: Spec { generics: vec![Type::i32(), Type::Bool] },
        span: Span::null(),
    });
    assert_eq!(list.to_string(), "List<i32, bool>");
    let nested = Path { is_absolute: false, segments: vec![list.clone(), list], span: Span::null() };
    assert_eq!(nested.to_string(), "List<i32, bool>::List<i32, bool>");
}

#[test]
fn class_types_are_equal_by_class_and_arguments() {
    let a = class(4, &["geometry", "Point"], vec![Type::i32()]);
    let b = class(4, &["Point"], vec![Type::i32()]);
    assert_eq!(a, b);
    assert!(types_equal(&a, &b));
    assert_ne!(a, class(5, &["geometry", "Point"], vec![Type::i32()]));
    assert_ne!(a, class(4, &["geometry", "Point"], vec![Type::i64()]));
    assert_ne!(a, class(4, &["geometry", "Point"], vec![]));
    assert_ne!(a, class(4, &["geometry", "Point"], vec![Type::i32(), Type::i32()]));
    assert_eq!(Type::pointer(a.clone()), Type::pointer(b.clone()));
    assert_eq!(Type::array(a.clone(), 2), Type::array(b.clone(), 2));
    assert_ne!(Type::array(a, 2), Type::array(b, 3));
}

#[test]
fn structural_types_are_equal_part_by_part() {
    assert_eq!(Type::Void, Type::Void);
    assert_ne!(Type::Void, Type::Bool);
    assert_ne!(Type::i32(), Type::u32());
    assert_ne!(Type::i32(), Type::i64());
    assert_ne!(Type::single(), Type::double());
    assert_ne!(Type::pointer(Type::Bool), Type::Bool);
    assert_ne!(Type::pointer(Type::Bool), Type::pointer(Type::Void));
    let f = |arguments: Vec<Type>, return_ty: Type| {
        Type::function(Signature { generics: SpecGenerics::empty(), arguments, return_ty })
    };
    assert_eq!(f(vec![Type::Bool], Type::Void), f(vec![Type::Bool], Type::Void));
    assert_ne!(f(vec![Type::Bool], Type::Void), f(vec![Type::Void], Type::Void));
    assert_ne!(f(vec![Type::Bool], Type::Void), f(vec![Type::Bool], Type::Bool));
    assert_ne!(f(vec![Type::Bool], Type::Void), f(vec![], Type::Void));
}

#[test]
fn copies_of_types_are_equal() {
    let signature = Signature {
        generics: SpecGenerics::empty(),
        arguments: vec![class(1, &["A"], vec![Type::u8()]), Type::array(Type::Bool, 4)],
        return_ty: Type::pointer(Type::i8()),
    };
    let ty = Type::function(signature.clone());
    assert_eq!(ty.clone(), ty);
    assert_eq!(signature.clone(), signature);
    assert_eq!(ty.clone().to_string(), "(A, [bool; 4]) -> *i8");
    let p = path(&["x", "self"], true);
    assert_eq!(p.clone(), p);
}
