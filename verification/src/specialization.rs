//! Specializations: the concrete types that a use site supplies for the
//! type parameters of a declaration.

use vstd::prelude::*;
use vstd::string::*;
use crate::error::{Error, ErrorView};
use crate::generics::{Generic, Generics};
use crate::ident::IdentView;
use crate::ty::{
    copy_spec_generics, copy_type, copy_types, spec_generic_view, spec_generics_view, types_view,
    Type, TypeView,
};

verus! {

/// The types supplied at a use site, by position.
#[derive(Debug)]
pub struct Spec {
    pub generics: Vec<Type>,
}

impl View for Spec {
    type V = Seq<TypeView>;

    open spec fn view(&self) -> Seq<TypeView> {
        types_view(self.generics@)
    }
}

impl Clone for Spec {
    fn clone(&self) -> (copy: Spec)
        ensures
            copy@ == self@,
    {
        Spec { generics: copy_types(&self.generics) }
    }
}

/// A type parameter together with the type bound to it.
pub ghost struct SpecGenericView {
    pub generic: IdentView,
    pub ty: TypeView,
}

#[derive(Clone, Debug, PartialEq, Eq)]
pub struct SpecGeneric {
    pub generic: Generic,
    pub ty: Type,
}

impl View for SpecGeneric {
    type V = SpecGenericView;

    open spec fn view(&self) -> SpecGenericView {
        spec_generic_view(*self)
    }
}

/// The bindings of a declaration's type parameters, in declaration order.
#[derive(Debug, PartialEq, Eq)]
pub struct SpecGenerics {
    pub generics: Vec<SpecGeneric>,
}

impl View for SpecGenerics {
    type V = Seq<SpecGenericView>;

    open spec fn view(&self) -> Seq<SpecGenericView> {
        spec_generics_view(self.generics@)
    }
}

impl Clone for SpecGenerics {
    fn clone(&self) -> (copy: SpecGenerics)
        ensures
            copy@ == self@,
    {
        SpecGenerics { generics: copy_spec_generics(&self.generics) }
    }
}

impl Spec {
    /// A use site that supplies no types.
    pub fn empty() -> (spec: Spec)
        ensures
            spec@ == Seq::<TypeView>::empty(),
    {
        let spec = Spec { generics: Vec::new() };
        assert(types_view(spec.generics@) =~= Seq::<TypeView>::empty());
        spec
    }

    pub fn len(&self) -> (len: usize)
        ensures
            len == self@.len(),
    {
        self.generics.len()
    }

    pub fn is_empty(&self) -> (empty: bool)
        ensures
            empty == (self@.len() == 0),
    {
        self.generics.len() == 0
    }

    /// Adds a type at the end.
    pub fn push(&mut self, ty: Type)
        ensures
            final(self)@ == old(self)@.push(ty@),
    {
        self.generics.push(ty);
        assert(types_view(self.generics@) =~= types_view(old(self).generics@).push(ty@));
    }
}

/// Position of the first binding of the parameter called `name`, or -1
/// where no binding is for that name.
pub open spec fn binding_of(bound: Seq<SpecGenericView>, name: Seq<char>) -> int
    decreases bound.len(),
{
    if bound.len() == 0 {
        -1
    } else if binding_of(bound.drop_last(), name) >= 0 {
        binding_of(bound.drop_last(), name)
    } else if bound.last().generic.name == name {
        bound.len() - 1
    } else {
        -1
    }
}

/// `binding_of` finds a binding for the name, and no earlier binding is for it.
pub proof fn lemma_binding_of(bound: Seq<SpecGenericView>, name: Seq<char>)
    ensures
        -1 <= binding_of(bound, name) < bound.len(),
        binding_of(bound, name) >= 0 ==> bound[binding_of(bound, name)].generic.name == name,
        forall|i: int|
            0 <= i < bound.len() && (binding_of(bound, name) < 0 || i < binding_of(bound, name))
                ==> (#[trigger] bound[i]).generic.name != name,
    decreases bound.len(),
{
    if bound.len() > 0 {
        let front = bound.drop_last();
        lemma_binding_of(front, name);
        assert forall|i: int|
            0 <= i < bound.len() && (binding_of(bound, name) < 0 || i < binding_of(
                bound,
                name,
            )) implies (#[trigger] bound[i]).generic.name != name by {
            if i < front.len() {
                assert(front[i] == bound[i]);
            }
        }
    }
}

/// The finding for a parameter without a binding. It is pinned to the
/// place where the parameter is declared.
pub open spec fn not_specialized(generic: IdentView) -> ErrorView {
    ErrorView {
        title: "generic '"@ + generic.name + "' not specialized"@,
        notes: Seq::empty(),
        span: generic.span,
    }
}

/// The pairs of the parameters and the types at the same positions, as far
/// as both lists go.
pub open spec fn paired(declared: Seq<IdentView>, supplied: Seq<TypeView>) -> Seq<
    SpecGenericView,
> {
    Seq::new(
        if declared.len() <= supplied.len() {
            declared.len()
        } else {
            supplied.len()
        },
        |i: int| SpecGenericView { generic: declared[i], ty: supplied[i] },
    )
}

/// The types of the bindings, in order.
pub open spec fn types_of(bound: Seq<SpecGenericView>) -> Seq<TypeView> {
    bound.map_values(|b: SpecGenericView| b.ty)
}

impl SpecGenerics {
    /// No bindings.
    pub fn empty() -> (bound: SpecGenerics)
        ensures
            bound@ == Seq::<SpecGenericView>::empty(),
    {
        let bound = SpecGenerics { generics: Vec::new() };
        assert(spec_generics_view(bound.generics@) =~= Seq::<SpecGenericView>::empty());
        bound
    }

    /// Binds each parameter to the type at its position. Where one list
    /// is longer than the other, what has no partner is left out.
    pub fn new(generics: &Generics, specialization: Spec) -> (bound: SpecGenerics)
        ensures
            bound@ == paired(generics@, specialization@),
    {
        let mut this = SpecGenerics::empty();
        let mut i: usize = 0;
        while i < generics.params.len() && i < specialization.generics.len()
            invariant
                i <= generics.params.len(),
                i <= specialization.generics.len(),
                this@.len() == i,
                forall|j: int|
                    0 <= j < i ==> this@[j] == (SpecGenericView {
                        generic: generics@[j],
                        ty: specialization@[j],
                    }),
            decreases generics.params.len() - i,
        {
            this.push_generic(generics.params[i].clone(), copy_type(&specialization.generics[i]));
            i += 1;
        }
        assert(this@ =~= paired(generics@, specialization@));
        this
    }

    pub fn len(&self) -> (len: usize)
        ensures
            len == self@.len(),
    {
        self.generics.len()
    }

    pub fn is_empty(&self) -> (empty: bool)
        ensures
            empty == (self@.len() == 0),
    {
        self.generics.len() == 0
    }

    /// The bound types, in order.
    pub fn spec(&self) -> (spec: Spec)
        ensures
            spec@ == types_of(self@),
    {
        let mut specialization = Spec::empty();
        let mut i: usize = 0;
        while i < self.generics.len()
            invariant
                i <= self.generics.len(),
                specialization@.len() == i,
                forall|j: int| 0 <= j < i ==> specialization@[j] == self@[j].ty,
            decreases self.generics.len() - i,
        {
            specialization.push(copy_type(&self.generics[i].ty));
            i += 1;
        }
        assert(specialization@ =~= types_of(self@));
        specialization
    }

    /// Adds a binding at the end.
    pub fn push_generic(&mut self, generic: Generic, ty: Type)
        ensures
            final(self)@ == old(self)@.push(SpecGenericView { generic: generic@, ty: ty@ }),
    {
        self.generics.push(SpecGeneric { generic, ty });
        assert(spec_generics_view(self.generics@) =~= spec_generics_view(old(self).generics@).push(
            SpecGenericView { generic: generic@, ty: ty@ },
        ));
    }

    /// The first binding of the parameter with the name of `generic`.
    pub fn get_generic(&self, generic: &Generic) -> (found: Option<&SpecGeneric>)
        ensures
            found is Some == (binding_of(self@, generic@.name) >= 0),
            found is Some ==> found->0@ == self@[binding_of(self@, generic@.name)],
    {
        let mut i: usize = 0;
        proof {
            assert(self@.take(0) =~= Seq::<SpecGenericView>::empty());
        }
        while i < self.generics.len()
            invariant
                i <= self.generics.len(),
                binding_of(self@.take(i as int), generic@.name) < 0,
            decreases self.generics.len() - i,
        {
            proof {
                assert(self@.take(i + 1).drop_last() =~= self@.take(i as int));
                assert(self@.take(i + 1).last() == self@[i as int]);
            }
            if self.generics[i].generic.same(generic) {
                proof {
                    lemma_binding_prefix(self@, i + 1, generic@.name);
                }
                return Some(&self.generics[i]);
            }
            i += 1;
        }
        proof {
            assert(self@.take(self@.len() as int) =~= self@);
        }
        None
    }

    /// The type bound to `generic`. Fails where it has no binding.
    pub fn specialize_generic(&self, generic: Generic) -> (ty: Result<Type, Error>)
        ensures
            match ty {
                Ok(ty) => binding_of(self@, generic@.name) >= 0 && ty@ == self@[binding_of(
                    self@,
                    generic@.name,
                )].ty,
                Err(error) => binding_of(self@, generic@.name) < 0 && error@ == not_specialized(
                    generic@,
                ),
            },
    {
        match self.get_generic(&generic) {
            Some(bound) => Ok(copy_type(&bound.ty)),
            None => {
                let mut title = "generic '".to_owned();
                title.append(generic.name.as_str());
                title.append("' not specialized");
                Err(Error::new(title.as_str()).with_span(generic.name.span()))
            },
        }
    }
}

/// A binding found among the first `n` bindings is the one found among all.
pub proof fn lemma_binding_prefix(bound: Seq<SpecGenericView>, n: int, name: Seq<char>)
    requires
        0 <= n <= bound.len(),
        binding_of(bound.take(n), name) >= 0,
    ensures
        binding_of(bound, name) == binding_of(bound.take(n), name),
    decreases bound.len() - n,
{
    if n < bound.len() {
        assert(bound.take(n + 1).drop_last() =~= bound.take(n));
        lemma_binding_prefix(bound, n + 1, name);
    } else {
        assert(bound.take(n) =~= bound);
    }
}

} // verus!
