//! Classes as declared.

use vstd::prelude::*;
use crate::field::Field;
use crate::generics::Generics;
use crate::ident::Ident;
use crate::method::Method;

verus! {

#[derive(Clone, Debug, PartialEq)]
pub struct Class {
    pub name: Ident,
    pub generics: Generics,
    pub fields: Vec<Field>,
    pub methods: Vec<Method>,
}

} // verus!
