//! Declarations as they are written in the program text.

use vstd::prelude::*;
use crate::block::Block;
use crate::function::Argument;
use crate::generics::Generics;
use crate::ident::Ident;
use crate::span::Span;
use crate::ty::Type;

verus! {

#[derive(Clone, Debug, PartialEq)]
pub struct FunctionDecl {
    pub name: Ident,
    pub generics: Generics,
    pub arguments: Vec<Argument>,
    pub return_type: Type,
    pub body: Block,
    pub span: Span,
}

#[derive(Clone, Debug, PartialEq)]
pub enum Decl {
    Function(FunctionDecl),
}

} // verus!
