//! Functions as declared, and their signatures once specialized.

use vstd::prelude::*;
use crate::error::Error;
use crate::generics::{specialize_spec, Generics};
use crate::ident::Ident;
use crate::specialization::{SpecGenericView, SpecGenerics};
use crate::ty::{copy_signature, copy_type, signature_view, types_view, Type, TypeView};

verus! {

/// A named argument of a declaration.
#[derive(Clone, Debug, PartialEq)]
pub struct Argument {
    pub name: Ident,
    pub ty: Type,
}

/// A function as declared: its name, its type parameters, its arguments and
/// the type it returns.
#[derive(Clone, Debug, PartialEq)]
pub struct Function {
    pub name: Ident,
    pub generics: Generics,
    pub arguments: Vec<Argument>,
    pub return_ty: Type,
}

pub ghost struct SignatureView {
    pub generics: Seq<SpecGenericView>,
    pub arguments: Seq<TypeView>,
    pub return_ty: TypeView,
}

/// The type of a function at one use: the bindings of its type parameters,
/// the types of its arguments and the type it returns.
#[derive(Debug)]
pub struct Signature {
    pub generics: SpecGenerics,
    pub arguments: Vec<Type>,
    pub return_ty: Type,
}

impl View for Signature {
    type V = SignatureView;

    open spec fn view(&self) -> SignatureView {
        signature_view(*self)
    }
}

impl Clone for Signature {
    fn clone(&self) -> (copy: Signature)
        ensures
            copy@ == self@,
    {
        copy_signature(self)
    }
}

impl Function {
    /// The declared types of the arguments, in order.
    pub open spec fn argument_types(&self) -> Seq<TypeView> {
        Seq::new(self.arguments@.len(), |i: int| self.arguments@[i].ty@)
    }

    /// The signature of the function where its type parameters are bound
    /// as `generics` says. Fails as the binding of the parameters does.
    pub fn signature(&self, generics: &SpecGenerics) -> (signature: Result<Signature, Error>)
        ensures
            match specialize_spec(self.generics@, generics@) {
                Ok(bound) => signature is Ok && signature->Ok_0@ == (SignatureView {
                    generics: bound,
                    arguments: self.argument_types(),
                    return_ty: self.return_ty@,
                }),
                Err(error) => signature is Err && signature->Err_0@ == error,
            },
    {
        let mut arguments: Vec<Type> = Vec::new();
        let mut i: usize = 0;
        while i < self.arguments.len()
            invariant
                i <= self.arguments.len(),
                arguments@.len() == i,
                forall|j: int| 0 <= j < i ==> arguments@[j]@ == self.arguments@[j].ty@,
            decreases self.arguments.len() - i,
        {
            arguments.push(copy_type(&self.arguments[i].ty));
            i += 1;
        }
        proof {
            assert(types_view(arguments@) =~= self.argument_types());
        }
        match self.generics.specialize(generics) {
            Ok(bound) => Ok(
                Signature { generics: bound, arguments, return_ty: copy_type(&self.return_ty) },
            ),
            Err(error) => Err(error),
        }
    }
}

} // verus!
