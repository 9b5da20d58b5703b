//! Hashing that agrees with equality: what two equal values have in
//! common, and nothing else, is fed to the hasher.

use std::hash::{Hash, Hasher};
use vstd::prelude::*;
use crate::function::Signature;
use crate::generics::{Generic, Generics};
use crate::ident::Ident;
use crate::specialization::{Spec, SpecGeneric, SpecGenerics};
use crate::ty::{ClassType, Type};

verus! {

/// `str::hash` of the standard library: feeds the characters of `text` to
/// the hasher.
#[verifier::external_body]
pub(crate) fn hash_text<H: Hasher>(text: &str, state: &mut H) {
    text.hash(state)
}

/// `usize::hash` of the standard library: feeds `number` to the hasher.
#[verifier::external_body]
pub(crate) fn hash_number<H: Hasher>(number: usize, state: &mut H) {
    number.hash(state)
}

/// Feeds a type to the hasher: the kind of the type and its parts. Of a
/// class type the class and the supplied types are fed, not the path.
pub fn hash_type<H: Hasher>(ty: &Type, state: &mut H)
    decreases ty,
{
    match ty {
        Type::Void => hash_number(0, state),
        Type::Bool => hash_number(1, state),
        Type::Int(kind) => {
            hash_number(2, state);
            hash_number(
                if kind.signed {
                    1
                } else {
                    0
                },
                state,
            );
            match kind.size {
                Some(size) => {
                    hash_number(1, state);
                    hash_number(size as usize, state);
                },
                None => hash_number(0, state),
            }
        },
        Type::Float(kind) => {
            hash_number(3, state);
            hash_number(kind.size as usize, state);
        },
        Type::Pointer(inner) => {
            hash_number(4, state);
            hash_type(inner, state);
        },
        Type::Function(signature) => {
            hash_number(5, state);
            hash_signature(signature, state);
        },
        Type::Array(inner, size) => {
            hash_number(6, state);
            hash_type(inner, state);
            hash_number(*size, state);
        },
        Type::Class(class) => {
            hash_number(7, state);
            hash_number(class.id.0, state);
            hash_types(&class.spec.generics, state);
        },
    }
}

/// Feeds a list of types to the hasher: its length and each type in order.
pub fn hash_types<H: Hasher>(types: &Vec<Type>, state: &mut H)
    decreases types,
{
    hash_number(types.len(), state);
    let mut i: usize = 0;
    while i < types.len()
        invariant
            i <= types.len(),
        decreases types.len() - i,
    {
        hash_type(&types[i], state);
        i += 1;
    }
}

/// Feeds a list of bindings to the hasher: its length and, of each
/// binding in order, the name of the parameter and the type bound to it.
pub fn hash_bindings<H: Hasher>(bound: &Vec<SpecGeneric>, state: &mut H)
    decreases bound,
{
    hash_number(bound.len(), state);
    let mut i: usize = 0;
    while i < bound.len()
        invariant
            i <= bound.len(),
        decreases bound.len() - i,
    {
        hash_text(bound[i].generic.name.as_str(), state);
        hash_type(&bound[i].ty, state);
        i += 1;
    }
}

/// Feeds a signature to the hasher: its bindings, the types of its
/// arguments and the type it returns.
pub fn hash_signature<H: Hasher>(signature: &Signature, state: &mut H)
    decreases signature,
{
    hash_bindings(&signature.generics.generics, state);
    hash_types(&signature.arguments, state);
    hash_type(&signature.return_ty, state);
}

impl Hash for Ident {
    fn hash<H: Hasher>(&self, state: &mut H) {
        hash_text(self.as_str(), state)
    }
}

impl Hash for Generic {
    fn hash<H: Hasher>(&self, state: &mut H) {
        hash_text(self.name.as_str(), state)
    }
}

impl Hash for Generics {
    fn hash<H: Hasher>(&self, state: &mut H) {
        hash_number(self.params.len(), state);
        let mut i: usize = 0;
        while i < self.params.len()
            invariant
                i <= self.params.len(),
            decreases self.params.len() - i,
        {
            hash_text(self.params[i].name.as_str(), state);
            i += 1;
        }
    }
}

impl Hash for Type {
    fn hash<H: Hasher>(&self, state: &mut H) {
        hash_type(self, state)
    }
}

impl Hash for ClassType {
    fn hash<H: Hasher>(&self, state: &mut H) {
        hash_number(self.id.0, state);
        hash_types(&self.spec.generics, state);
    }
}

impl Hash for Spec {
    fn hash<H: Hasher>(&self, state: &mut H) {
        hash_types(&self.generics, state)
    }
}

impl Hash for SpecGeneric {
    fn hash<H: Hasher>(&self, state: &mut H) {
        hash_text(self.generic.name.as_str(), state);
        hash_type(&self.ty, state);
    }
}

impl Hash for SpecGenerics {
    fn hash<H: Hasher>(&self, state: &mut H) {
        hash_bindings(&self.generics, state)
    }
}

impl Hash for Signature {
    fn hash<H: Hasher>(&self, state: &mut H) {
        hash_signature(self, state)
    }
}

} // verus!
