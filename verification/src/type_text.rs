//! How types, paths and lists of type parameters are written.

use vstd::prelude::*;
use vstd::string::*;
use crate::function::{Signature, SignatureView};
use crate::generics::Generics;
use crate::ident::IdentView;
use crate::path::{
    IdentSegment, Path, PathSegment, PathSegmentView, PathView, SelfSegment,
};
use crate::specialization::Spec;
use crate::text::{decimal_string, decimal_text, join, join_spec, texts};
use crate::ty::{Type, TypeView};

verus! {

/// How a type is written: `void`, `bool`, the name of a number type, `*`
/// before the target of a pointer, a signature, `[element; size]` for an
/// array, and the path of a class.
pub open spec fn type_text(ty: TypeView) -> Seq<char>
    decreases ty, 0nat,
{
    match ty {
        TypeView::Void => "void"@,
        TypeView::Bool => "bool"@,
        TypeView::Int(kind) => kind.text(),
        TypeView::Float(kind) => kind.text(),
        TypeView::Pointer(inner) => "*"@ + type_text(*inner),
        TypeView::Function(signature) => signature_text(*signature),
        TypeView::Array(inner, size) => "["@ + type_text(*inner) + "; "@ + decimal_text(
            size as nat,
        ) + "]"@,
        TypeView::Class(class) => path_text(class.path),
    }
}

/// How each of the types is written.
pub open spec fn types_texts(types: Seq<TypeView>) -> Seq<Seq<char>>
    decreases types, 0nat,
{
    Seq::new(
        types.len(),
        |i: int|
            if 0 <= i < types.len() {
                type_text(types[i])
            } else {
                Seq::empty()
            },
    )
}

/// How a signature is written: the argument types between parentheses,
/// an arrow, and the type returned.
pub open spec fn signature_text(signature: SignatureView) -> Seq<char>
    decreases signature, 0nat,
{
    "("@ + join_spec(types_texts(signature.arguments), ", "@) + ") -> "@ + type_text(
        signature.return_ty,
    )
}

/// How the types supplied at a use site are written: between `<` and `>`,
/// or not at all where there are none.
pub open spec fn spec_text(types: Seq<TypeView>) -> Seq<char>
    decreases types, 1nat,
{
    if types.len() == 0 {
        Seq::empty()
    } else {
        "<"@ + join_spec(types_texts(types), ", "@) + ">"@
    }
}

/// How a segment of a path is written: its name and the types supplied
/// with it, or `self`.
pub open spec fn segment_text(segment: PathSegmentView) -> Seq<char>
    decreases segment, 0nat,
{
    match segment {
        PathSegmentView::IdentSegment(named) => named.name.name + spec_text(named.spec),
        PathSegmentView::SelfSegment(span) => "self"@,
    }
}

/// How each of the segments is written.
pub open spec fn segments_texts(segments: Seq<PathSegmentView>) -> Seq<Seq<char>>
    decreases segments, 0nat,
{
    Seq::new(
        segments.len(),
        |i: int|
            if 0 <= i < segments.len() {
                segment_text(segments[i])
            } else {
                Seq::empty()
            },
    )
}

/// How a path is written: its segments with `::` between neighbours, and
/// `::` before the first where the path is absolute.
pub open spec fn path_text(path: PathView) -> Seq<char>
    decreases path, 0nat,
{
    (if path.is_absolute {
        "::"@
    } else {
        Seq::empty()
    }) + join_spec(segments_texts(path.segments), "::"@)
}

/// How declared type parameters are written: their names between `<` and
/// `>`, or nothing where there are none.
pub open spec fn generics_text(generics: Seq<IdentView>) -> Seq<char> {
    if generics.len() == 0 {
        Seq::empty()
    } else {
        "<"@ + join_spec(generics.map_values(|g: IdentView| g.name), ", "@) + ">"@
    }
}

pub fn type_string(ty: &Type) -> (text: String)
    ensures
        text@ == type_text(ty@),
    decreases ty, 0nat,
{
    match ty {
        Type::Void => "void".to_owned(),
        Type::Bool => "bool".to_owned(),
        Type::Int(kind) => kind.to_string(),
        Type::Float(kind) => kind.to_string(),
        Type::Pointer(inner) => {
            let mut text = "*".to_owned();
            let target = type_string(inner);
            text.append(target.as_str());
            text
        },
        Type::Function(signature) => signature_string(signature),
        Type::Array(inner, size) => {
            let mut text = "[".to_owned();
            let element = type_string(inner);
            text.append(element.as_str());
            text.append("; ");
            let count = decimal_string(*size as u128);
            text.append(count.as_str());
            text.append("]");
            text
        },
        Type::Class(class) => {
            let text = path_string(&class.path);
            assert(ty@ == TypeView::Class(class@));
            text
        },
    }
}

pub fn types_strings(types: &Vec<Type>) -> (list: Vec<String>)
    ensures
        texts(list@) == types_texts(crate::ty::types_view(types@)),
    decreases types, 0nat,
{
    let mut list: Vec<String> = Vec::new();
    let mut i: usize = 0;
    while i < types.len()
        invariant
            i <= types.len(),
            list@.len() == i,
            forall|j: int| 0 <= j < i ==> list@[j]@ == type_text(types@[j]@),
        decreases types.len() - i,
    {
        list.push(type_string(&types[i]));
        i += 1;
    }
    assert(texts(list@) =~= types_texts(crate::ty::types_view(types@)));
    list
}

pub fn signature_string(signature: &Signature) -> (text: String)
    ensures
        text@ == signature_text(signature@),
    decreases signature, 0nat,
{
    let mut text = "(".to_owned();
    let arguments = types_strings(&signature.arguments);
    let list = join(&arguments, ", ");
    text.append(list.as_str());
    text.append(") -> ");
    let result = type_string(&signature.return_ty);
    text.append(result.as_str());
    text
}

pub fn spec_string(types: &Vec<Type>) -> (text: String)
    ensures
        text@ == spec_text(crate::ty::types_view(types@)),
    decreases types, 1nat,
{
    if types.len() == 0 {
        String::new()
    } else {
        let mut text = "<".to_owned();
        let parts = types_strings(types);
        let list = join(&parts, ", ");
        text.append(list.as_str());
        text.append(">");
        text
    }
}

pub fn segment_string(segment: &PathSegment) -> (text: String)
    ensures
        text@ == segment_text(segment@),
    decreases segment, 0nat,
{
    match segment {
        PathSegment::IdentSegment(named) => {
            let mut text = named.name.to_string();
            let supplied = spec_string(&named.spec.generics);
            text.append(supplied.as_str());
            text
        },
        PathSegment::SelfSegment(this) => "self".to_owned(),
    }
}

pub fn path_string(path: &Path) -> (text: String)
    ensures
        text@ == path_text(path@),
    decreases path, 0nat,
{
    let mut text = if path.is_absolute {
        "::".to_owned()
    } else {
        String::new()
    };
    let mut parts: Vec<String> = Vec::new();
    let mut i: usize = 0;
    while i < path.segments.len()
        invariant
            i <= path.segments.len(),
            parts@.len() == i,
            forall|j: int| 0 <= j < i ==> parts@[j]@ == segment_text(path.segments@[j]@),
        decreases path.segments.len() - i,
    {
        parts.push(segment_string(&path.segments[i]));
        i += 1;
    }
    assert(texts(parts@) =~= segments_texts(path@.segments));
    let list = join(&parts, "::");
    text.append(list.as_str());
    text
}

impl Type {
    /// How the type is written.
    pub fn to_string(&self) -> (text: String)
        ensures
            text@ == type_text(self@),
    {
        type_string(self)
    }
}

impl Signature {
    /// How the signature is written.
    pub fn to_string(&self) -> (text: String)
        ensures
            text@ == signature_text(self@),
    {
        signature_string(self)
    }
}

impl Spec {
    /// How the supplied types are written.
    pub fn to_string(&self) -> (text: String)
        ensures
            text@ == spec_text(self@),
    {
        spec_string(&self.generics)
    }
}

impl PathSegment {
    /// How the segment is written.
    pub fn to_string(&self) -> (text: String)
        ensures
            text@ == segment_text(self@),
    {
        segment_string(self)
    }
}

impl Path {
    /// How the path is written.
    pub fn to_string(&self) -> (text: String)
        ensures
            text@ == path_text(self@),
    {
        path_string(self)
    }
}

impl Generics {
    /// How the declared type parameters are written.
    pub fn to_string(&self) -> (text: String)
        ensures
            text@ == generics_text(self@),
    {
        if self.params.len() == 0 {
            String::new()
        } else {
            let mut names: Vec<String> = Vec::new();
            let mut i: usize = 0;
            while i < self.params.len()
                invariant
                    i <= self.params.len(),
                    names@.len() == i,
                    forall|j: int| 0 <= j < i ==> names@[j]@ == self@[j].name,
                decreases self.params.len() - i,
            {
                names.push(self.params[i].to_string());
                i += 1;
            }
            assert(texts(names@) =~= self@.map_values(|g: IdentView| g.name));
            let mut text = "<".to_owned();
            let list = join(&names, ", ");
            text.append(list.as_str());
            text.append(">");
            text
        }
    }
}

} // verus!
