//! Blocks of statements.

use vstd::prelude::*;
use crate::span::Span;
use crate::stmt::Stmt;

verus! {

/// Statements in the order they are written.
#[derive(Clone, Debug, PartialEq)]
pub struct Block {
    pub stmts: Vec<Stmt>,
    pub span: Span,
}

impl Block {
    /// Adds a statement at the end. The span of the block stays as it is.
    pub fn push(&mut self, stmt: Stmt)
        ensures
            final(self).stmts@ == old(self).stmts@.push(stmt),
            final(self).span == old(self).span,
    {
        self.stmts.push(stmt);
    }
}

} // verus!
