use athame::function::{Argument, Function};
use athame::generics::{Generic, Generics};
use athame::ident::Ident;
use athame::parser::Parser;
use athame::sources::{Source, SourceId};
use athame::span::Span;
use athame::specialization::{Spec, SpecGenerics};
use athame::ty::Type;

fn id() -> SourceId {
    SourceId { uuid: 3 }
}

fn generic(name: &str, at: usize) -> Generic {
    Generic { name: Ident::new(name, Span::new(at, name.len(), id())) }
}

fn declared(names: &[&str]) -> Generics {
    let mut params = Vec::new();
    let mut at = 1;
    for name in names {
        params.push(generic(name, at));
        at += name.len() + 2;
    }
    Generics { params }
}

fn parse_generics(text: &str) -> Result<Generics, athame::error::Error> {
    Parser::new(&Source::new("test.ath", text), id()).unwrap().parse::<Generics>()
}

#[test]
fn one_parameter_and_no_type_is_an_arity_error() {
    let generics = declared(&["T"]);
    let error = generics.specialize(&SpecGenerics::empty()).unwrap_err();
    assert_eq!(error.title(), "invalid number of generics");
    assert_eq!(error.notes().len(), 1);
    assert_eq!(error.notes()[0].note(), "expected 1 generics, found 0");
    assert!(error.span().is_null());
}

#[test]
fn one_parameter_and_one_type_resolves() {
    let generics = declared(&["T"]);
    let supplied = SpecGenerics::new(&generics, Spec { generics: vec![Type::i32()] });
    let bound = generics.specialize(&supplied).unwrap();
    assert_eq!(bound.len(), 1);
    assert_eq!(bound.generics[0].generic.to_string(), "T");
    assert_eq!(bound.generics[0].ty, Type::i32());
    assert_eq!(bound.specialize_generic(generic("T", 40)).unwrap(), Type::i32());
    assert_eq!(bound.get_generic(&generic("T", 0)).unwrap().ty, Type::i32());
}

#[test]
fn too_many_types_is_an_arity_error() {
    let generics = declared(&["T"]);
    let mut supplied = SpecGenerics::empty();
    supplied.push_generic(generic("T", 0), Type::i32());
    supplied.push_generic(generic("U", 0), Type::Bool);
    let error = generics.specialize(&supplied).unwrap_err();
    assert_eq!(error.title(), "invalid number of generics");
    assert_eq!(error.notes()[0].note(), "expected 1 generics, found 2");
    let error = Generics::empty().specialize(&supplied).unwrap_err();
    assert_eq!(error.notes()[0].note(), "expected 0 generics, found 2");
}

#[test]
fn no_parameters_and_no_types_resolve_to_nothing() {
    let bound = Generics::empty().specialize(&SpecGenerics::empty()).unwrap();
    assert!(bound.is_empty());
    assert_eq!(bound.len(), 0);
}

#[test]
fn parameters_are_bound_by_name_in_declaration_order() {
    let generics = declared(&["T", "U"]);
    let mut supplied = SpecGenerics::empty();
    supplied.push_generic(generic("U", 0), Type::Bool);
    supplied.push_generic(generic("T", 0), Type::u8());
    let bound = generics.specialize(&supplied).unwrap();
    assert_eq!(bound.len(), 2);
    assert_eq!(bound.generics[0].generic.to_string(), "T");
    assert_eq!(bound.generics[0].ty, Type::u8());
    assert_eq!(bound.generics[0].generic.name.span(), Span::new(1, 1, id()));
    assert_eq!(bound.generics[1].generic.to_string(), "U");
    assert_eq!(bound.generics[1].ty, Type::Bool);
    assert_eq!(bound.spec(), Spec { generics: vec![Type::u8(), Type::Bool] });
}

#[test]
fn a_parameter_without_binding_is_reported_where_it_is_declared() {
    let generics = declared(&["T", "U", "V"]);
    let mut supplied = SpecGenerics::empty();
    supplied.push_generic(generic("T", 0), Type::Bool);
    supplied.push_generic(generic("X", 0), Type::Bool);
    supplied.push_generic(generic("Y", 0), Type::Bool);
    let error = generics.specialize(&supplied).unwrap_err();
    assert_eq!(error.title(), "generic 'U' not specialized");
    assert_eq!(error.span(), Span::new(4, 1, id()));
    assert!(error.notes().is_empty());
}

#[test]
fn the_first_binding_of_a_name_counts() {
    let mut supplied = SpecGenerics::empty();
    supplied.push_generic(generic("T", 0), Type::Bool);
    supplied.push_generic(generic("T", 0), Type::Void);
    supplied.push_generic(generic("U", 0), Type::u64());
    assert_eq!(supplied.specialize_generic(generic("T", 9)).unwrap(), Type::Bool);
    assert_eq!(supplied.specialize_generic(generic("U", 9)).unwrap(), Type::u64());
    assert!(supplied.get_generic(&generic("V", 9)).is_none());
    let error = supplied.specialize_generic(generic("V", 9)).unwrap_err();
    assert_eq!(error.title(), "generic 'V' not specialized");
    assert_eq!(error.span(), Span::new(9, 1, id()));
}

#[test]
fn positional_binding_pairs_as_far_as_both_lists_go() {
    let generics = declared(&["T", "U"]);
    let bound = SpecGenerics::new(&generics, Spec { generics: vec![Type::i8(), Type::i16()] });
    assert_eq!(bound.len(), 2);
    assert_eq!(bound.generics[1].generic.to_string(), "U");
    assert_eq!(bound.generics[1].ty, Type::i16());
    let bound = SpecGenerics::new(&generics, Spec { generics: vec![Type::i8()] });
    assert_eq!(bound.len(), 1);
    let bound = SpecGenerics::new(&declared(&["T"]), Spec { generics: vec![Type::i8(), Type::Bool] });
    assert_eq!(bound.len(), 1);
    assert_eq!(bound.generics[0].ty, Type::i8());
}

#[test]
fn spec_collects_types() {
    let mut spec = Spec::empty();
    assert!(spec.is_empty());
    spec.push(Type::Bool);
    spec.push(Type::pointer(Type::u8()));
    assert_eq!(spec.len(), 2);
    assert_eq!(spec.to_string(), "<bool, *u8>");
    assert_eq!(Spec::empty().to_string(), "");
}

#[test]
fn generics_are_parsed_between_angle_brackets() {
    let generics = parse_generics("<T>").unwrap();
    assert_eq!(generics.len(), 1);
    assert_eq!(generics.params[0].to_string(), "T");
    assert_eq!(generics.params[0].name.span(), Span::new(1, 1, id()));
    assert_eq!(generics.to_string(), "<T>");
    let generics = parse_generics("<T, Key, V,>").unwrap();
    assert_eq!(generics.to_string(), "<T, Key, V>");
    let generics = parse_generics("<>").unwrap();
    assert!(generics.is_empty());
}

#[test]
fn generics_are_empty_where_none_are_written() {
    let mut parser = Parser::new(&Source::new("test.ath", "(a)"), id()).unwrap();
    let generics = parser.parse::<Generics>().unwrap();
    assert!(generics.is_empty());
    assert_eq!(generics.to_string(), "");
    assert_eq!(parser.index(), 0);
    assert!(parse_generics("").unwrap().is_empty());
}

#[test]
fn malformed_generics_fail() {
    let error = parse_generics("<T U>").unwrap_err();
    assert_eq!(error.title(), "unexpected token");
    let error = parse_generics("<T").unwrap_err();
    assert_eq!(error.title(), "unexpected end of file");
    let error = parse_generics("<1>").unwrap_err();
    assert_eq!(error.title(), "expected identifier");
    assert_eq!(error.span(), Span::new(1, 1, id()));
}

#[test]
fn parsed_generics_specialize() {
    let generics = parse_generics("<T>").unwrap();
    let supplied = SpecGenerics::new(&generics, Spec { generics: vec![Type::i32()] });
    let bound = generics.specialize(&supplied).unwrap();
    assert_eq!(bound.specialize_generic(generic("T", 0)).unwrap(), Type::i32());
}

#[test]
fn signature_of_a_function() {
    let function = Function {
        name: Ident::new("first", Span::null()),
        generics: declared(&["T"]),
        arguments: vec![
            Argument { name: Ident::new("a", Span::null()), ty: Type::pointer(Type::u8()) },
            Argument { name: Ident::new("b", Span::null()), ty: Type::Bool },
        ],
        return_ty: Type::i64(),
    };
    let mut supplied = SpecGenerics::empty();
    supplied.push_generic(generic("T", 0), Type::u16());
    let signature = function.signature(&supplied).unwrap();
    assert_eq!(signature.arguments, vec![Type::pointer(Type::u8()), Type::Bool]);
    assert_eq!(signature.return_ty, Type::i64());
    assert_eq!(signature.generics.len(), 1);
    assert_eq!(signature.generics.generics[0].ty, Type::u16());
    assert_eq!(signature.to_string(), "(*u8, bool) -> i64");
    let error = function.signature(&SpecGenerics::empty()).unwrap_err();
    assert_eq!(error.title(), "invalid number of generics");
    let mut other = SpecGenerics::empty();
    other.push_generic(generic("U", 0), Type::u16());
    let error = function.signature(&other).unwrap_err();
    assert_eq!(error.title(), "generic 'T' not specialized");
}

#[test]
fn generics_copy_and_compare_by_name() {
    let generics = declared(&["T", "U"]);
    assert_eq!(generics.clone(), generics);
    assert!(generic("T", 1).same(&generic("T", 50)));
    assert!(!generic("T", 1).same(&generic("U", 1)));
    assert_eq!(generic("T", 1), generic("T", 50));
}
