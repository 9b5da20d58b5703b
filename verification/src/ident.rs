//! Identifiers: a name and the place where it was written.

use vstd::prelude::*;
use vstd::std_specs::cmp::PartialEqSpecImpl;
use crate::span::Span;

verus! {

/// What an identifier is: its characters and its position.
pub ghost struct IdentView {
    pub name: Seq<char>,
    pub span: Span,
}

/// A name in the program text. Two identifiers are the same when their
/// names are; where they were written does not matter.
#[derive(Debug)]
pub struct Ident {
    value: String,
    span: Span,
}

impl View for Ident {
    type V = IdentView;

    closed spec fn view(&self) -> IdentView {
        IdentView { name: self.value@, span: self.span }
    }
}

impl Ident {
    pub fn new(value: &str, span: Span) -> (ident: Ident)
        ensures
            ident@ == (IdentView { name: value@, span }),
    {
        Ident { value: value.to_owned(), span }
    }

    pub fn span(&self) -> (span: Span)
        ensures
            span == self@.span,
    {
        self.span
    }

    /// The characters of the name.
    pub fn as_str(&self) -> (name: &str)
        ensures
            name@ == self@.name,
    {
        self.value.as_str()
    }

    /// The name as an owned string.
    pub fn to_string(&self) -> (name: String)
        ensures
            name@ == self@.name,
    {
        self.value.clone()
    }
}

impl Clone for Ident {
    fn clone(&self) -> (copy: Ident)
        ensures
            copy@ == self@,
    {
        Ident { value: self.value.clone(), span: self.span }
    }
}

impl PartialEq for Ident {
    fn eq(&self, other: &Ident) -> (same: bool) {
        self.value == other.value
    }
}

impl PartialEqSpecImpl for Ident {
    open spec fn obeys_eq_spec() -> bool {
        true
    }

    open spec fn eq_spec(&self, other: &Ident) -> bool {
        self@.name == other@.name
    }
}

impl Eq for Ident {

}

} // verus!
