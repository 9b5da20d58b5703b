//! Statements.

use vstd::prelude::*;
use crate::expr::Expr;
use crate::ident::Ident;
use crate::span::Span;
use crate::ty::Type;

verus! {

/// `let name: ty = expr`, where the type and the value may each be left out.
#[derive(Clone, Debug, PartialEq)]
pub struct LetStmt {
    pub name: Ident,
    pub ty: Option<Type>,
    pub expr: Option<Expr>,
    pub span: Span,
}

/// `return expr`, where the value may be left out.
#[derive(Clone, Debug, PartialEq)]
pub struct ReturnStmt {
    pub expr: Option<Expr>,
    pub span: Span,
}

#[derive(Clone, Debug, PartialEq)]
pub enum StmtKind {
    Expr(Expr),
    Let(LetStmt),
    Return(ReturnStmt),
}

#[derive(Clone, Debug, PartialEq)]
pub struct Stmt {
    pub kind: StmtKind,
    pub span: Span,
}

} // verus!
