use std::collections::HashMap;

use athame::class::Class;
use athame::data::{ClassId, Classes, Data, FunctionId, GenericFunctions, ModuleId, Modules};
use athame::function::Function;
use athame::generics::Generics;
use athame::ident::Ident;
use athame::module::Module;
use athame::span::Span;
use athame::ty::Type;

fn function(name: &str) -> Function {
    Function {
        name: Ident::new(name, Span::null()),
        generics: Generics::empty(),
        arguments: vec![],
        return_ty: Type::Void,
    }
}

fn class(name: &str) -> Class {
    Class { name: Ident::new(name, Span::null()), generics: Generics::empty(), fields: vec![], methods: vec![] }
}

fn module(name: &str) -> Module {
    Module {
        name: Ident::new(name, Span::null()),
        modules: HashMap::new(),
        classes: HashMap::new(),
        functions: HashMap::new(),
        span: Span::null(),
    }
}

#[test]
fn ids_are_positions_in_order_of_creation() {
    let mut functions = GenericFunctions::new();
    assert!(functions.is_empty());
    let a = functions.push(function("a"));
    let b = functions.push(function("b"));
    let c = functions.push(function("c"));
    assert_eq!(a, FunctionId(0));
    assert_eq!(b, FunctionId(1));
    assert_eq!(c, FunctionId(2));
    assert!(a < b && b < c);
    assert_eq!(functions.len(), 3);
    assert_eq!(functions.get(b).name.to_string(), "b");
}

#[test]
fn ids_stay_valid_as_the_store_grows() {
    let mut classes = Classes::new();
    let first = classes.push(class("First"));
    for i in 0..100 {
        let id = classes.push(class("Other"));
        assert_eq!(id, ClassId(i + 1));
        assert!(classes.contains(first));
        assert_eq!(classes.get(first).name.to_string(), "First");
    }
    assert_eq!(classes.len(), 101);
    assert!(!classes.contains(ClassId(101)));
    assert_eq!(classes.as_slice().len(), 101);
}

#[test]
fn entries_can_be_changed_in_place() {
    let mut modules = Modules::new();
    let root = modules.push(module("root"));
    let child = modules.push(module("child"));
    modules.get_mut(root).modules.insert(Ident::new("child", Span::null()), child);
    let elsewhere = Ident::new("child", Span::new(40, 5, athame::sources::SourceId { uuid: 3 }));
    assert_eq!(modules.get(root).modules.get(&elsewhere), Some(&ModuleId(1)));
    assert!(modules.get(child).modules.is_empty());
    assert_eq!(modules.len(), 2);
}

#[test]
fn a_module_maps_names_to_ids() {
    let mut data = Data { modules: Modules::new(), classes: Classes::new(), functions: GenericFunctions::new() };
    let mut root = module("root");
    let point = data.classes.push(class("Point"));
    let origin = data.functions.push(function("origin"));
    let name = |text: &str| Ident::new(text, Span::null());
    root.classes.insert(name("Point"), point);
    root.functions.insert(name("origin"), origin);
    let root = data.modules.push(root);
    let found = data.modules.get(root).classes[&name("Point")];
    assert_eq!(data.classes.get(found).name.to_string(), "Point");
    let found = data.modules.get(root).functions[&name("origin")];
    assert_eq!(data.functions.get(found).name.to_string(), "origin");
    assert!(data.modules.get(root).classes.get(&name("Line")).is_none());
}
