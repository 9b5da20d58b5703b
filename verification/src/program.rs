//! A whole program.

use vstd::prelude::*;
use crate::decl::Decl;

verus! {

#[derive(Clone, Debug, PartialEq)]
pub struct Program {
    pub decls: Vec<Decl>,
}

} // verus!
