//! When two types are the same type.

use vstd::prelude::*;
use vstd::std_specs::cmp::PartialEqSpecImpl;
use crate::function::{Signature, SignatureView};
use crate::path::PathView;
use crate::specialization::{Spec, SpecGeneric, SpecGenericView};
use crate::ty::{spec_generics_view, types_view, ClassType, ClassTypeView, Type, TypeView};

verus! {

/// Two types are the same when they are built alike from the same parts.
/// Two class types are the same when they instantiate the same class with
/// the same types; the paths they were written with do not count.
pub open spec fn same_type(a: TypeView, b: TypeView) -> bool
    decreases a,
{
    match (a, b) {
        (TypeView::Void, TypeView::Void) => true,
        (TypeView::Bool, TypeView::Bool) => true,
        (TypeView::Int(x), TypeView::Int(y)) => x == y,
        (TypeView::Float(x), TypeView::Float(y)) => x == y,
        (TypeView::Pointer(x), TypeView::Pointer(y)) => same_type(*x, *y),
        (TypeView::Function(x), TypeView::Function(y)) => same_signature(*x, *y),
        (TypeView::Array(x, n), TypeView::Array(y, m)) => n == m && same_type(*x, *y),
        (TypeView::Class(x), TypeView::Class(y)) => x.id == y.id && same_types(x.spec, y.spec),
        _ => false,
    }
}

/// Two lists of types are the same when they are equally long and hold
/// the same types at the same places.
pub open spec fn same_types(a: Seq<TypeView>, b: Seq<TypeView>) -> bool
    decreases a,
{
    &&& a.len() == b.len()
    &&& forall|i: int| 0 <= i < a.len() ==> same_type(#[trigger] a[i], b[i])
}

/// Two lists of bindings are the same when they bind parameters of the
/// same names to the same types, in the same order.
pub open spec fn same_bindings(a: Seq<SpecGenericView>, b: Seq<SpecGenericView>) -> bool
    decreases a,
{
    &&& a.len() == b.len()
    &&& forall|i: int|
        0 <= i < a.len() ==> (#[trigger] a[i]).generic.name == b[i].generic.name && same_type(
            a[i].ty,
            b[i].ty,
        )
}

pub open spec fn same_signature(a: SignatureView, b: SignatureView) -> bool
    decreases a,
{
    &&& same_bindings(a.generics, b.generics)
    &&& same_types(a.arguments, b.arguments)
    &&& same_type(a.return_ty, b.return_ty)
}

/// Every type is the same as itself.
pub proof fn lemma_same_type_reflexive(a: TypeView)
    ensures
        same_type(a, a),
    decreases a,
{
    match a {
        TypeView::Pointer(x) => lemma_same_type_reflexive(*x),
        TypeView::Array(x, n) => lemma_same_type_reflexive(*x),
        TypeView::Function(x) => lemma_same_signature_reflexive(*x),
        TypeView::Class(x) => lemma_same_types_reflexive(x.spec),
        _ => {},
    }
}

/// Every signature is the same as itself.
pub proof fn lemma_same_signature_reflexive(a: SignatureView)
    ensures
        same_signature(a, a),
    decreases a,
{
    lemma_same_types_reflexive(a.arguments);
    lemma_same_type_reflexive(a.return_ty);
    assert forall|i: int| 0 <= i < a.generics.len() implies same_type(
        (#[trigger] a.generics[i]).ty,
        a.generics[i].ty,
    ) by {
        lemma_same_type_reflexive(a.generics[i].ty);
    }
}

/// Every list of types is the same as itself.
pub proof fn lemma_same_types_reflexive(a: Seq<TypeView>)
    ensures
        same_types(a, a),
    decreases a,
{
    assert forall|i: int| 0 <= i < a.len() implies same_type(#[trigger] a[i], a[i]) by {
        lemma_same_type_reflexive(a[i]);
    }
}

/// Being the same type does not depend on the order of the two.
pub proof fn lemma_same_type_symmetric(a: TypeView, b: TypeView)
    requires
        same_type(a, b),
    ensures
        same_type(b, a),
    decreases a,
{
    match (a, b) {
        (TypeView::Pointer(x), TypeView::Pointer(y)) => lemma_same_type_symmetric(*x, *y),
        (TypeView::Array(x, n), TypeView::Array(y, m)) => lemma_same_type_symmetric(*x, *y),
        (TypeView::Function(x), TypeView::Function(y)) => lemma_same_signature_symmetric(*x, *y),
        (TypeView::Class(x), TypeView::Class(y)) => lemma_same_types_symmetric(x.spec, y.spec),
        _ => {},
    }
}

/// Being the same signature does not depend on the order of the two.
pub proof fn lemma_same_signature_symmetric(a: SignatureView, b: SignatureView)
    requires
        same_signature(a, b),
    ensures
        same_signature(b, a),
    decreases a,
{
    lemma_same_types_symmetric(a.arguments, b.arguments);
    lemma_same_type_symmetric(a.return_ty, b.return_ty);
    assert forall|i: int| 0 <= i < b.generics.len() implies (#[trigger] b.generics[i]).generic.name
        == a.generics[i].generic.name && same_type(b.generics[i].ty, a.generics[i].ty) by {
        assert(same_type(a.generics[i].ty, b.generics[i].ty));
        lemma_same_type_symmetric(a.generics[i].ty, b.generics[i].ty);
    }
}

/// Being the same list of types does not depend on the order of the two.
pub proof fn lemma_same_types_symmetric(a: Seq<TypeView>, b: Seq<TypeView>)
    requires
        same_types(a, b),
    ensures
        same_types(b, a),
    decreases a,
{
    assert forall|i: int| 0 <= i < b.len() implies same_type(#[trigger] b[i], a[i]) by {
        assert(same_type(a[i], b[i]));
        lemma_same_type_symmetric(a[i], b[i]);
    }
}

/// Two references to one instantiation of a class are the same type,
/// however each was spelled.
pub proof fn lemma_class_path_is_display_only(a: ClassTypeView, path: PathView)
    ensures
        same_type(TypeView::Class(a), TypeView::Class(ClassTypeView { path, ..a })),
{
    lemma_same_types_reflexive(a.spec);
}

/// Tests whether two types are the same type.
pub fn types_equal(a: &Type, b: &Type) -> (same: bool)
    ensures
        same == same_type(a@, b@),
    decreases a,
{
    match (a, b) {
        (Type::Void, Type::Void) => true,
        (Type::Bool, Type::Bool) => true,
        (Type::Int(x), Type::Int(y)) => x.signed == y.signed && x.size == y.size,
        (Type::Float(x), Type::Float(y)) => x.size == y.size,
        (Type::Pointer(x), Type::Pointer(y)) => types_equal(x, y),
        (Type::Function(x), Type::Function(y)) => signatures_equal(x, y),
        (Type::Array(x, n), Type::Array(y, m)) => *n == *m && types_equal(x, y),
        (Type::Class(x), Type::Class(y)) => {
            let same = x.id.0 == y.id.0 && type_lists_equal(&x.spec.generics, &y.spec.generics);
            assert(a@ == TypeView::Class(x@));
            assert(b@ == TypeView::Class(y@));
            same
        },
        _ => false,
    }
}

/// Tests whether two lists of types are the same.
pub fn type_lists_equal(a: &Vec<Type>, b: &Vec<Type>) -> (same: bool)
    ensures
        same == same_types(types_view(a@), types_view(b@)),
    decreases a,
{
    if a.len() != b.len() {
        return false;
    }
    let mut i: usize = 0;
    while i < a.len()
        invariant
            i <= a.len(),
            a.len() == b.len(),
            forall|j: int| 0 <= j < i ==> same_type(a@[j]@, b@[j]@),
        decreases a.len() - i,
    {
        if !types_equal(&a[i], &b[i]) {
            proof {
                let j: int = i as int;
                assert(types_view(a@)[j] == a@[j]@);
                assert(types_view(b@)[j] == b@[j]@);
            }
            return false;
        }
        i += 1;
    }
    proof {
        assert forall|j: int| 0 <= j < types_view(a@).len() implies same_type(
            #[trigger] types_view(a@)[j],
            types_view(b@)[j],
        ) by {
            assert(types_view(a@)[j] == a@[j]@);
            assert(types_view(b@)[j] == b@[j]@);
        }
    }
    true
}

/// Tests whether two lists of bindings are the same.
pub fn bindings_equal(a: &Vec<SpecGeneric>, b: &Vec<SpecGeneric>) -> (same: bool)
    ensures
        same == same_bindings(spec_generics_view(a@), spec_generics_view(b@)),
    decreases a,
{
    if a.len() != b.len() {
        return false;
    }
    let mut i: usize = 0;
    while i < a.len()
        invariant
            i <= a.len(),
            a.len() == b.len(),
            forall|j: int|
                0 <= j < i ==> a@[j]@.generic.name == b@[j]@.generic.name && same_type(
                    a@[j]@.ty,
                    b@[j]@.ty,
                ),
        decreases a.len() - i,
    {
        if !(a[i].generic.same(&b[i].generic) && types_equal(&a[i].ty, &b[i].ty)) {
            proof {
                let j: int = i as int;
                assert(spec_generics_view(a@)[j] == a@[j]@);
                assert(spec_generics_view(b@)[j] == b@[j]@);
            }
            return false;
        }
        i += 1;
    }
    proof {
        let x = spec_generics_view(a@);
        let y = spec_generics_view(b@);
        assert forall|j: int| 0 <= j < x.len() implies (#[trigger] x[j]).generic.name
            == y[j].generic.name && same_type(x[j].ty, y[j].ty) by {
            assert(x[j] == a@[j]@);
            assert(y[j] == b@[j]@);
        }
    }
    true
}

/// Tests whether two signatures are the same.
pub fn signatures_equal(a: &Signature, b: &Signature) -> (same: bool)
    ensures
        same == same_signature(a@, b@),
    decreases a,
{
    bindings_equal(&a.generics.generics, &b.generics.generics) && type_lists_equal(
        &a.arguments,
        &b.arguments,
    ) && types_equal(&a.return_ty, &b.return_ty)
}

impl PartialEq for Type {
    fn eq(&self, other: &Type) -> (same: bool) {
        types_equal(self, other)
    }
}

impl Eq for Type {

}

impl PartialEqSpecImpl for Type {
    open spec fn obeys_eq_spec() -> bool {
        true
    }

    open spec fn eq_spec(&self, other: &Type) -> bool {
        same_type(self@, other@)
    }
}

impl PartialEq for ClassType {
    fn eq(&self, other: &ClassType) -> (same: bool) {
        self.id.0 == other.id.0 && type_lists_equal(&self.spec.generics, &other.spec.generics)
    }
}

impl Eq for ClassType {

}

impl PartialEqSpecImpl for ClassType {
    open spec fn obeys_eq_spec() -> bool {
        true
    }

    open spec fn eq_spec(&self, other: &ClassType) -> bool {
        self@.id == other@.id && same_types(self@.spec, other@.spec)
    }
}

impl PartialEq for Spec {
    fn eq(&self, other: &Spec) -> (same: bool) {
        type_lists_equal(&self.generics, &other.generics)
    }
}

impl Eq for Spec {

}

impl PartialEqSpecImpl for Spec {
    open spec fn obeys_eq_spec() -> bool {
        true
    }

    open spec fn eq_spec(&self, other: &Spec) -> bool {
        same_types(self@, other@)
    }
}

impl PartialEq for Signature {
    fn eq(&self, other: &Signature) -> (same: bool) {
        signatures_equal(self, other)
    }
}

impl Eq for Signature {

}

impl PartialEqSpecImpl for Signature {
    open spec fn obeys_eq_spec() -> bool {
        true
    }

    open spec fn eq_spec(&self, other: &Signature) -> bool {
        same_signature(self@, other@)
    }
}

} // verus!
