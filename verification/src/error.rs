//! Diagnostics: a finding with a title, notes and a position, and the two
//! buckets that collect findings.

use vstd::prelude::*;
use crate::span::Span;

verus! {

/// One line of additional explanation attached to a finding.
#[derive(Debug, PartialEq, Eq)]
pub struct ErrorNote {
    note: String,
}

impl View for ErrorNote {
    type V = Seq<char>;

    closed spec fn view(&self) -> Seq<char> {
        self.note@
    }
}

impl ErrorNote {
    pub fn new(note: &str) -> (n: ErrorNote)
        ensures
            n@ == note@,
    {
        ErrorNote { note: note.to_owned() }
    }

    pub fn note(&self) -> (s: &str)
        ensures
            s@ == self@,
    {
        self.note.as_str()
    }
}

impl Clone for ErrorNote {
    fn clone(&self) -> (n: ErrorNote)
        ensures
            n@ == self@,
    {
        ErrorNote { note: self.note.clone() }
    }
}

/// What a finding says: its title, its notes in the order they were added,
/// and the position it is pinned to (the null span when it has none).
pub ghost struct ErrorView {
    pub title: Seq<char>,
    pub notes: Seq<Seq<char>>,
    pub span: Span,
}

#[derive(Debug, PartialEq, Eq)]
pub struct Error {
    title: String,
    notes: Vec<ErrorNote>,
    span: Span,
}

impl View for Error {
    type V = ErrorView;

    closed spec fn view(&self) -> ErrorView {
        ErrorView {
            title: self.title@,
            notes: self.notes@.map_values(|n: ErrorNote| n@),
            span: self.span,
        }
    }
}

impl Error {
    /// A finding with the given title, no notes and no position.
    pub fn new(title: &str) -> (e: Error)
        ensures
            e@ == (ErrorView { title: title@, notes: Seq::empty(), span: Span::null_spec() }),
    {
        let e = Error { title: title.to_owned(), notes: Vec::new(), span: Span::null() };
        assert(e.notes@.map_values(|n: ErrorNote| n@) =~= Seq::empty());
        e
    }

    pub fn set_span(&mut self, span: Span) -> (this: &mut Error)
        ensures
            this@ == (ErrorView { span, ..old(self)@ }),
            *final(self) == *final(this),
    {
        self.span = span;
        self
    }

    pub fn with_span(self, span: Span) -> (e: Error)
        ensures
            e@ == (ErrorView { span, ..self@ }),
    {
        let mut e = self;
        e.span = span;
        e
    }

    pub fn add_note(&mut self, note: &str) -> (this: &mut Error)
        ensures
            this@ == (ErrorView { notes: old(self)@.notes.push(note@), ..old(self)@ }),
            *final(self) == *final(this),
    {
        self.notes.push(ErrorNote::new(note));
        assert(self.notes@.map_values(|n: ErrorNote| n@) =~= old(self).notes@.map_values(
            |n: ErrorNote| n@,
        ).push(note@));
        self
    }

    pub fn with_note(self, note: &str) -> (e: Error)
        ensures
            e@ == (ErrorView { notes: self@.notes.push(note@), ..self@ }),
    {
        let mut e = self;
        e.notes.push(ErrorNote::new(note));
        assert(e.notes@.map_values(|n: ErrorNote| n@) =~= self.notes@.map_values(
            |n: ErrorNote| n@,
        ).push(note@));
        e
    }

    pub fn title(&self) -> (s: &str)
        ensures
            s@ == self@.title,
    {
        self.title.as_str()
    }

    pub fn span(&self) -> (span: Span)
        ensures
            span == self@.span,
    {
        self.span
    }

    /// The notes, in the order they were added.
    pub fn notes(&self) -> (notes: &Vec<ErrorNote>)
        ensures
            notes@.map_values(|n: ErrorNote| n@) == self@.notes,
    {
        &self.notes
    }
}

impl Clone for Error {
    fn clone(&self) -> (e: Error)
        ensures
            e@ == self@,
    {
        let mut notes: Vec<ErrorNote> = Vec::new();
        let mut i: usize = 0;
        while i < self.notes.len()
            invariant
                i <= self.notes.len(),
                notes@.len() == i,
                forall|j: int| 0 <= j < i ==> notes@[j]@ == self.notes@[j]@,
            decreases self.notes.len() - i,
        {
            notes.push(self.notes[i].clone());
            i += 1;
        }
        assert(notes@.map_values(|n: ErrorNote| n@) =~= self.notes@.map_values(
            |n: ErrorNote| n@,
        ));
        Error { title: self.title.clone(), notes, span: self.span }
    }
}

/// The contents of the two buckets, each in the order of arrival.
pub ghost struct ErrorsView {
    pub errors: Seq<ErrorView>,
    pub warnings: Seq<ErrorView>,
}

/// Findings collected across independent runs: errors and warnings, kept
/// apart, appended to and never merged or removed.
#[derive(Clone, Debug, PartialEq, Eq)]
pub struct Errors {
    errors: Vec<Error>,
    warnings: Vec<Error>,
}

impl View for Errors {
    type V = ErrorsView;

    closed spec fn view(&self) -> ErrorsView {
        ErrorsView {
            errors: self.errors@.map_values(|e: Error| e@),
            warnings: self.warnings@.map_values(|e: Error| e@),
        }
    }
}

impl Default for Errors {
    fn default() -> (all: Errors)
        ensures
            all@ == (ErrorsView { errors: Seq::empty(), warnings: Seq::empty() }),
    {
        Errors::new()
    }
}

impl Errors {
    pub fn new() -> (all: Errors)
        ensures
            all@ == (ErrorsView { errors: Seq::empty(), warnings: Seq::empty() }),
    {
        let all = Errors { errors: Vec::new(), warnings: Vec::new() };
        assert(all.errors@.map_values(|e: Error| e@) =~= Seq::empty());
        assert(all.warnings@.map_values(|e: Error| e@) =~= Seq::empty());
        all
    }

    /// True when no error was recorded; warnings do not count.
    pub fn is_empty(&self) -> (empty: bool)
        ensures
            empty == (self@.errors.len() == 0),
    {
        self.errors.len() == 0
    }

    /// Appends a new error with the given title and hands it out for completion.
    pub fn err(&mut self, title: &str) -> (last: &mut Error)
        ensures
            last@ == (ErrorView { title: title@, notes: Seq::empty(), span: Span::null_spec() }),
            final(self)@.errors == old(self)@.errors.push(final(last)@),
            final(self)@.warnings == old(self)@.warnings,
    {
        self.errors.push(Error::new(title));
        let n: usize = self.errors.len();
        let ghost before = self.errors@;
        let last = &mut self.errors[n - 1];
        proof {
            assert(before.update(n - 1, *final(last)).map_values(|e: Error| e@) =~= old(
                self,
            ).errors@.map_values(|e: Error| e@).push(final(last)@));
        }
        last
    }

    /// Appends a new warning with the given title and hands it out for completion.
    pub fn warn(&mut self, title: &str) -> (last: &mut Error)
        ensures
            last@ == (ErrorView { title: title@, notes: Seq::empty(), span: Span::null_spec() }),
            final(self)@.warnings == old(self)@.warnings.push(final(last)@),
            final(self)@.errors == old(self)@.errors,
    {
        self.warnings.push(Error::new(title));
        let n: usize = self.warnings.len();
        let ghost before = self.warnings@;
        let last = &mut self.warnings[n - 1];
        proof {
            assert(before.update(n - 1, *final(last)).map_values(|e: Error| e@) =~= old(
                self,
            ).warnings@.map_values(|e: Error| e@).push(final(last)@));
        }
        last
    }

    /// The recorded errors, oldest first.
    pub fn errors(&self) -> (list: &Vec<Error>)
        ensures
            list@.map_values(|e: Error| e@) == self@.errors,
    {
        &self.errors
    }

    /// The recorded warnings, oldest first.
    pub fn warnings(&self) -> (list: &Vec<Error>)
        ensures
            list@.map_values(|e: Error| e@) == self@.warnings,
    {
        &self.warnings
    }
}

} // verus!
