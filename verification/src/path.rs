//! Paths: how the program text names a declaration.

use vstd::prelude::*;
use crate::ident::{Ident, IdentView};
use crate::span::Span;
use crate::specialization::Spec;
use crate::ty::{copy_path, path_view, segment_view, TypeView};

verus! {

pub ghost struct IdentSegmentView {
    pub name: IdentView,
    pub spec: Seq<TypeView>,
    pub span: Span,
}

pub ghost enum PathSegmentView {
    IdentSegment(IdentSegmentView),
    SelfSegment(Span),
}

pub ghost struct PathView {
    pub is_absolute: bool,
    pub segments: Seq<PathSegmentView>,
    pub span: Span,
}

/// A named segment, with the type arguments written after the name.
#[derive(Clone, Debug, PartialEq)]
pub struct IdentSegment {
    pub name: Ident,
    pub spec: Spec,
    pub span: Span,
}

/// The segment `self`.
#[derive(Clone, Debug, PartialEq)]
pub struct SelfSegment {
    pub span: Span,
}

#[derive(Clone, Debug, PartialEq)]
pub enum PathSegment {
    IdentSegment(IdentSegment),
    SelfSegment(SelfSegment),
}

impl View for PathSegment {
    type V = PathSegmentView;

    open spec fn view(&self) -> PathSegmentView {
        segment_view(*self)
    }
}

/// Segments separated by `::`; an absolute path starts with `::`.
#[derive(Debug, PartialEq)]
pub struct Path {
    pub is_absolute: bool,
    pub segments: Vec<PathSegment>,
    pub span: Span,
}

impl View for Path {
    type V = PathView;

    open spec fn view(&self) -> PathView {
        path_view(*self)
    }
}

impl Clone for Path {
    fn clone(&self) -> (copy: Path)
        ensures
            copy@ == self@,
    {
        copy_path(self)
    }
}

} // verus!
