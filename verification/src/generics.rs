//! Generic parameters as a declaration lists them.

use vstd::prelude::*;
use vstd::string::*;
use crate::error::{Error, ErrorView};
use crate::ident::{Ident, IdentView};
use crate::parser::{list_at, models, Input, Parse, Parsed, Parser};
use crate::span::Span;
use crate::specialization::{
    binding_of, not_specialized, SpecGenericView, SpecGenerics,
};
use crate::symbol::Symbol;
use crate::text::{decimal_string, decimal_text};
use crate::token::{TokenKind, TokenKindView};

verus! {

/// One declared type parameter. Its identity is its name.
#[derive(Debug, PartialEq, Eq)]
pub struct Generic {
    pub name: Ident,
}

impl View for Generic {
    type V = IdentView;

    open spec fn view(&self) -> IdentView {
        self.name@
    }
}

impl Clone for Generic {
    fn clone(&self) -> (copy: Generic)
        ensures
            copy@ == self@,
    {
        Generic { name: self.name.clone() }
    }
}

impl Generic {
    /// The parameter's name.
    pub fn to_string(&self) -> (name: String)
        ensures
            name@ == self@.name,
    {
        self.name.to_string()
    }

    /// Tests whether two parameters have the same name.
    pub fn same(&self, other: &Generic) -> (same: bool)
        ensures
            same == (self@.name == other@.name),
    {
        self.name.as_str().eq(other.name.as_str())
    }
}

/// The type parameters of a declaration, in the order it lists them.
#[derive(Debug, PartialEq, Eq)]
pub struct Generics {
    pub params: Vec<Generic>,
}

impl View for Generics {
    type V = Seq<IdentView>;

    open spec fn view(&self) -> Seq<IdentView> {
        self.params@.map_values(|g: Generic| g@)
    }
}

impl Clone for Generics {
    fn clone(&self) -> (copy: Generics)
        ensures
            copy@ == self@,
    {
        let mut params: Vec<Generic> = Vec::new();
        let mut i: usize = 0;
        while i < self.params.len()
            invariant
                i <= self.params.len(),
                params@.len() == i,
                forall|j: int| 0 <= j < i ==> params@[j]@ == self.params@[j]@,
            decreases self.params.len() - i,
        {
            params.push(self.params[i].clone());
            i += 1;
        }
        assert(params@.map_values(|g: Generic| g@) =~= self.params@.map_values(|g: Generic| g@));
        Generics { params }
    }
}

impl Generics {
    /// A declaration without type parameters.
    pub fn empty() -> (generics: Generics)
        ensures
            generics@ == Seq::<IdentView>::empty(),
    {
        let generics = Generics { params: Vec::new() };
        assert(generics.params@.map_values(|g: Generic| g@) =~= Seq::empty());
        generics
    }

    pub fn len(&self) -> (len: usize)
        ensures
            len == self@.len(),
    {
        self.params.len()
    }

    pub fn is_empty(&self) -> (empty: bool)
        ensures
            empty == (self@.len() == 0),
    {
        self.params.len() == 0
    }
}

/// The finding for a use site that supplies another number of types than
/// the declaration has parameters. Its note gives both numbers.
pub open spec fn wrong_arity(expected: nat, found: nat) -> ErrorView {
    ErrorView {
        title: "invalid number of generics"@,
        notes: seq![
            "expected "@ + decimal_text(expected) + " generics, found "@ + decimal_text(found),
        ],
        span: Span::null_spec(),
    }
}

/// Position of the first of the parameters from `from` on that has no
/// binding, or -1 where each has one.
pub open spec fn first_unbound(
    declared: Seq<IdentView>,
    supplied: Seq<SpecGenericView>,
    from: int,
) -> int
    decreases declared.len() - from,
{
    if from < 0 || from >= declared.len() {
        -1
    } else if binding_of(supplied, declared[from].name) < 0 {
        from
    } else {
        first_unbound(declared, supplied, from + 1)
    }
}

/// Each parameter with the type that its name is bound to.
pub open spec fn resolved(declared: Seq<IdentView>, supplied: Seq<SpecGenericView>) -> Seq<
    SpecGenericView,
> {
    Seq::new(
        declared.len(),
        |i: int|
            SpecGenericView {
                generic: declared[i],
                ty: supplied[binding_of(supplied, declared[i].name)].ty,
            },
    )
}

/// What binding the declared parameters against the supplied bindings
/// gives: a finding where the numbers differ; else a finding for the first
/// parameter that no binding names; else each parameter, in declaration
/// order, with the type bound to its name.
pub open spec fn specialize_spec(
    declared: Seq<IdentView>,
    supplied: Seq<SpecGenericView>,
) -> Result<Seq<SpecGenericView>, ErrorView> {
    if declared.len() != supplied.len() {
        Err(wrong_arity(declared.len(), supplied.len()))
    } else if first_unbound(declared, supplied, 0) >= 0 {
        Err(not_specialized(declared[first_unbound(declared, supplied, 0)]))
    } else {
        Ok(resolved(declared, supplied))
    }
}

/// `first_unbound` finds a parameter without a binding, and every
/// parameter before it, from `from` on, has one.
pub proof fn lemma_first_unbound(
    declared: Seq<IdentView>,
    supplied: Seq<SpecGenericView>,
    from: int,
)
    requires
        0 <= from <= declared.len(),
    ensures
        first_unbound(declared, supplied, from) == -1 || from <= first_unbound(
            declared,
            supplied,
            from,
        ) < declared.len(),
        first_unbound(declared, supplied, from) >= 0 ==> binding_of(
            supplied,
            declared[first_unbound(declared, supplied, from)].name,
        ) < 0,
        forall|i: int|
            from <= i < declared.len() && (first_unbound(declared, supplied, from) < 0 || i
                < first_unbound(declared, supplied, from)) ==> binding_of(
                supplied,
                (#[trigger] declared[i]).name,
            ) >= 0,
    decreases declared.len() - from,
{
    if from < declared.len() && binding_of(supplied, declared[from].name) >= 0 {
        lemma_first_unbound(declared, supplied, from + 1);
    }
}

impl Generics {
    /// Binds the declared parameters to the types that `specialized`
    /// supplies for their names.
    pub fn specialize(&self, specialized: &SpecGenerics) -> (bound: Result<SpecGenerics, Error>)
        ensures
            match specialize_spec(self@, specialized@) {
                Ok(expected) => bound is Ok && bound->Ok_0@ == expected,
                Err(error) => bound is Err && bound->Err_0@ == error,
            },
    {
        if self.params.len() != specialized.len() {
            let mut note = "expected ".to_owned();
            let expected = decimal_string(self.params.len() as u128);
            note.append(expected.as_str());
            note.append(" generics, found ");
            let found = decimal_string(specialized.len() as u128);
            note.append(found.as_str());
            let error = Error::new("invalid number of generics").with_note(note.as_str());
            proof {
                assert(error@.notes =~= seq![note@]);
            }
            return Err(error);
        }
        let mut generics = SpecGenerics::empty();
        let mut i: usize = 0;
        while i < self.params.len()
            invariant
                i <= self.params.len(),
                self@.len() == self.params.len(),
                self@.len() == specialized@.len(),
                generics@.len() == i,
                first_unbound(self@, specialized@, 0) == first_unbound(
                    self@,
                    specialized@,
                    i as int,
                ),
                forall|j: int| 0 <= j < i ==> generics@[j] == resolved(self@, specialized@)[j],
            decreases self.params.len() - i,
        {
            let generic = &self.params[i];
            match specialized.specialize_generic(generic.clone()) {
                Ok(ty) => {
                    generics.push_generic(generic.clone(), ty);
                },
                Err(error) => {
                    return Err(error);
                },
            }
            i += 1;
        }
        proof {
            assert(generics@ =~= resolved(self@, specialized@));
        }
        Ok(generics)
    }
}

impl Parse for Generic {
    type Model = IdentView;

    open spec fn model(&self) -> IdentView {
        self@
    }

    open spec fn at(input: Input, pos: int) -> Parsed<IdentView> {
        input.ident_at(pos)
    }

    fn parse(parser: &mut Parser) -> (value: Result<Generic, Error>) {
        match parser.parse::<Ident>() {
            Ok(name) => Ok(Generic { name }),
            Err(error) => Err(error),
        }
    }
}

/// The type parameters at `pos`: a list between `<` and `>`, or none
/// where no `<` stands there.
pub open spec fn generics_at(input: Input, pos: int) -> Parsed<Seq<IdentView>> {
    if input.is_at(pos, TokenKindView::Symbol(Symbol::Lt)) {
        list_at::<Generic>(input, pos + 1, TokenKindView::Symbol(Symbol::Gt))
    } else {
        Parsed::Done { value: Seq::empty(), next: pos }
    }
}

impl Parse for Generics {
    type Model = Seq<IdentView>;

    open spec fn model(&self) -> Seq<IdentView> {
        self@
    }

    open spec fn at(input: Input, pos: int) -> Parsed<Seq<IdentView>> {
        generics_at(input, pos)
    }

    fn parse(parser: &mut Parser) -> (value: Result<Generics, Error>) {
        if parser.next_is(Symbol::Lt) {
            let terminator = TokenKind::Symbol(Symbol::Gt);
            match parser.parse_list::<Generic>(&terminator) {
                Ok(params) => {
                    proof {
                        assert(params@.map_values(|g: Generic| g@) =~= models::<Generic>(params@));
                    }
                    Ok(Generics { params })
                },
                Err(error) => Err(error),
            }
        } else {
            Ok(Generics::empty())
        }
    }
}

} // verus!
