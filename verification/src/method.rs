//! Methods of classes.

use vstd::prelude::*;
use crate::function::Argument;
use crate::generics::Generics;
use crate::ident::Ident;
use crate::span::Span;
use crate::ty::Type;

verus! {

/// The receiver of a method: `self`, or a pointer to it.
#[derive(Clone, Copy, Debug, PartialEq, Eq, Structural)]
pub struct SelfArgument {
    pub is_pointer: bool,
    pub span: Span,
}

#[derive(Clone, Debug, PartialEq)]
pub struct Method {
    pub name: Ident,
    pub generics: Generics,
    pub self_argument: Option<SelfArgument>,
    pub arguments: Vec<Argument>,
    pub return_ty: Type,
    pub span: Span,
}

} // verus!
