//! Modules: what each name declared in a module refers to.

use std::collections::HashMap;
use vstd::prelude::*;
use crate::data::{ClassId, FunctionId, ModuleId};
use crate::ident::Ident;
use crate::span::Span;

verus! {

/// A module and the ids of what it declares, each under its name. A name
/// is looked up among the declarations of this module only. Two
/// identifiers are the same key when their names are the same.
#[derive(Clone, Debug, PartialEq)]
pub struct Module {
    pub name: Ident,
    pub modules: HashMap<Ident, ModuleId>,
    pub classes: HashMap<Ident, ClassId>,
    pub functions: HashMap<Ident, FunctionId>,
    pub span: Span,
}

} // verus!
