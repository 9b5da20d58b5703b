//! Fields of classes.

use vstd::prelude::*;
use crate::expr::Expr;
use crate::ident::Ident;
use crate::ty::Type;

verus! {

#[derive(Clone, Debug, PartialEq)]
pub struct Field {
    pub name: Ident,
    pub ty: Type,
    pub default: Option<Expr>,
}

} // verus!
