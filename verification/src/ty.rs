//! The types of the language, and what each stands for.

use vstd::prelude::*;
use crate::data::ClassId;
use crate::float::Float;
use crate::function::{Signature, SignatureView};
use crate::integer::Int;
use crate::path::{
    IdentSegment, IdentSegmentView, Path, PathSegment, PathSegmentView, PathView, SelfSegment,
};
use crate::specialization::{Spec, SpecGeneric, SpecGenericView, SpecGenerics};

verus! {

/// What a class type is: the class it instantiates, the path it was
/// written with, and the types supplied for the class's parameters.
pub ghost struct ClassTypeView {
    pub id: ClassId,
    pub path: PathView,
    pub spec: Seq<TypeView>,
}

pub ghost enum TypeView {
    Void,
    Bool,
    Int(Int),
    Float(Float),
    Pointer(Box<TypeView>),
    Function(Box<SignatureView>),
    Array(Box<TypeView>, usize),
    Class(ClassTypeView),
}

/// An instantiation of a class. The path is kept for display only.
#[derive(Clone, Debug)]
pub struct ClassType {
    pub id: ClassId,
    pub path: Path,
    pub spec: Spec,
}

#[derive(Debug)]
pub enum Type {
    Void,
    Bool,
    Int(Int),
    Float(Float),
    Pointer(Box<Type>),
    Function(Box<Signature>),
    Array(Box<Type>, usize),
    Class(ClassType),
}

pub open spec fn type_view(ty: Type) -> TypeView
    decreases ty,
{
    match ty {
        Type::Void => TypeView::Void,
        Type::Bool => TypeView::Bool,
        Type::Int(kind) => TypeView::Int(kind),
        Type::Float(kind) => TypeView::Float(kind),
        Type::Pointer(inner) => TypeView::Pointer(Box::new(type_view(*inner))),
        Type::Function(signature) => TypeView::Function(Box::new(signature_view(*signature))),
        Type::Array(inner, size) => TypeView::Array(Box::new(type_view(*inner)), size),
        Type::Class(class) => TypeView::Class(class_type_view(class)),
    }
}

pub open spec fn types_view(types: Seq<Type>) -> Seq<TypeView>
    decreases types,
{
    Seq::new(
        types.len(),
        |i: int|
            if 0 <= i < types.len() {
                type_view(types[i])
            } else {
                TypeView::Void
            },
    )
}

pub open spec fn class_type_view(class: ClassType) -> ClassTypeView
    decreases class,
{
    ClassTypeView {
        id: class.id,
        path: path_view(class.path),
        spec: types_view(class.spec.generics@),
    }
}

pub open spec fn signature_view(signature: Signature) -> SignatureView
    decreases signature,
{
    SignatureView {
        generics: spec_generics_view(signature.generics.generics@),
        arguments: types_view(signature.arguments@),
        return_ty: type_view(signature.return_ty),
    }
}

pub open spec fn spec_generic_view(bound: SpecGeneric) -> SpecGenericView
    decreases bound,
{
    SpecGenericView { generic: bound.generic@, ty: type_view(bound.ty) }
}

pub open spec fn spec_generics_view(bound: Seq<SpecGeneric>) -> Seq<SpecGenericView>
    decreases bound,
{
    Seq::new(
        bound.len(),
        |i: int|
            if 0 <= i < bound.len() {
                spec_generic_view(bound[i])
            } else {
                SpecGenericView { generic: arbitrary(), ty: TypeView::Void }
            },
    )
}

pub open spec fn segment_view(segment: PathSegment) -> PathSegmentView
    decreases segment,
{
    match segment {
        PathSegment::IdentSegment(named) => PathSegmentView::IdentSegment(
            IdentSegmentView {
                name: named.name@,
                spec: types_view(named.spec.generics@),
                span: named.span,
            },
        ),
        PathSegment::SelfSegment(this) => PathSegmentView::SelfSegment(this.span),
    }
}

pub open spec fn segments_view(segments: Seq<PathSegment>) -> Seq<PathSegmentView>
    decreases segments,
{
    Seq::new(
        segments.len(),
        |i: int|
            if 0 <= i < segments.len() {
                segment_view(segments[i])
            } else {
                arbitrary()
            },
    )
}

pub open spec fn path_view(path: Path) -> PathView
    decreases path,
{
    PathView {
        is_absolute: path.is_absolute,
        segments: segments_view(path.segments@),
        span: path.span,
    }
}

impl View for Type {
    type V = TypeView;

    open spec fn view(&self) -> TypeView {
        type_view(*self)
    }
}

impl View for ClassType {
    type V = ClassTypeView;

    open spec fn view(&self) -> ClassTypeView {
        class_type_view(*self)
    }
}

pub fn copy_type(ty: &Type) -> (copy: Type)
    ensures
        copy@ == ty@,
    decreases ty,
{
    match ty {
        Type::Void => Type::Void,
        Type::Bool => Type::Bool,
        Type::Int(kind) => Type::Int(*kind),
        Type::Float(kind) => Type::Float(*kind),
        Type::Pointer(inner) => Type::Pointer(Box::new(copy_type(inner))),
        Type::Function(signature) => Type::Function(Box::new(copy_signature(signature))),
        Type::Array(inner, size) => Type::Array(Box::new(copy_type(inner)), *size),
        Type::Class(class) => {
            let path = copy_path(&class.path);
            let generics = copy_types(&class.spec.generics);
            let twin = ClassType { id: class.id, path, spec: Spec { generics } };
            assert(path_view(twin.path) == path_view(class.path));
            assert(types_view(twin.spec.generics@) == types_view(class.spec.generics@));
            assert(class_type_view(twin) == class_type_view(*class));
            Type::Class(twin)
        },
    }
}

pub fn copy_types(types: &Vec<Type>) -> (copy: Vec<Type>)
    ensures
        types_view(copy@) == types_view(types@),
    decreases types,
{
    let mut copy: Vec<Type> = Vec::new();
    let mut i: usize = 0;
    while i < types.len()
        invariant
            i <= types.len(),
            copy@.len() == i,
            forall|j: int| 0 <= j < i ==> type_view(copy@[j]) == type_view(types@[j]),
        decreases types.len() - i,
    {
        copy.push(copy_type(&types[i]));
        i += 1;
    }
    assert(types_view(copy@) =~= types_view(types@));
    copy
}

pub fn copy_signature(signature: &Signature) -> (copy: Signature)
    ensures
        copy@ == signature@,
    decreases signature,
{
    Signature {
        generics: SpecGenerics { generics: copy_spec_generics(&signature.generics.generics) },
        arguments: copy_types(&signature.arguments),
        return_ty: copy_type(&signature.return_ty),
    }
}

pub fn copy_spec_generics(bound: &Vec<SpecGeneric>) -> (copy: Vec<SpecGeneric>)
    ensures
        spec_generics_view(copy@) == spec_generics_view(bound@),
    decreases bound,
{
    let mut copy: Vec<SpecGeneric> = Vec::new();
    let mut i: usize = 0;
    while i < bound.len()
        invariant
            i <= bound.len(),
            copy@.len() == i,
            forall|j: int|
                0 <= j < i ==> spec_generic_view(copy@[j]) == spec_generic_view(bound@[j]),
        decreases bound.len() - i,
    {
        let item = &bound[i];
        copy.push(SpecGeneric { generic: item.generic.clone(), ty: copy_type(&item.ty) });
        i += 1;
    }
    assert(spec_generics_view(copy@) =~= spec_generics_view(bound@));
    copy
}

pub fn copy_segments(segments: &Vec<PathSegment>) -> (copy: Vec<PathSegment>)
    ensures
        segments_view(copy@) == segments_view(segments@),
    decreases segments,
{
    let mut copy: Vec<PathSegment> = Vec::new();
    let mut i: usize = 0;
    while i < segments.len()
        invariant
            i <= segments.len(),
            copy@.len() == i,
            forall|j: int| 0 <= j < i ==> segment_view(copy@[j]) == segment_view(segments@[j]),
        decreases segments.len() - i,
    {
        let item = match &segments[i] {
            PathSegment::IdentSegment(named) => PathSegment::IdentSegment(
                IdentSegment {
                    name: named.name.clone(),
                    spec: Spec { generics: copy_types(&named.spec.generics) },
                    span: named.span,
                },
            ),
            PathSegment::SelfSegment(this) => PathSegment::SelfSegment(
                SelfSegment { span: this.span },
            ),
        };
        copy.push(item);
        i += 1;
    }
    assert(segments_view(copy@) =~= segments_view(segments@));
    copy
}

pub fn copy_path(path: &Path) -> (copy: Path)
    ensures
        copy@ == path@,
    decreases path,
{
    Path {
        is_absolute: path.is_absolute,
        segments: copy_segments(&path.segments),
        span: path.span,
    }
}

impl Clone for Type {
    fn clone(&self) -> (copy: Type)
        ensures
            copy@ == self@,
    {
        copy_type(self)
    }
}

impl Type {
    /// The type of pointers to `ty`.
    pub fn pointer(ty: Type) -> (pointer: Type)
        ensures
            pointer@ == TypeView::Pointer(Box::new(ty@)),
    {
        Type::Pointer(Box::new(ty))
    }

    /// The type of functions with the given signature.
    pub fn function(signature: Signature) -> (function: Type)
        ensures
            function@ == TypeView::Function(Box::new(signature@)),
    {
        Type::Function(Box::new(signature))
    }

    /// The type of arrays of `size` elements of type `ty`.
    pub fn array(ty: Type, size: usize) -> (array: Type)
        ensures
            array@ == TypeView::Array(Box::new(ty@), size),
    {
        Type::Array(Box::new(ty), size)
    }

    pub fn i8() -> (ty: Type)
        ensures
            ty@ == TypeView::Int(Int { signed: true, size: Some(8u8) }),
    {
        Type::Int(Int::i8())
    }

    pub fn i16() -> (ty: Type)
        ensures
            ty@ == TypeView::Int(Int { signed: true, size: Some(16u8) }),
    {
        Type::Int(Int::i16())
    }

    pub fn i32() -> (ty: Type)
        ensures
            ty@ == TypeView::Int(Int { signed: true, size: Some(32u8) }),
    {
        Type::Int(Int::i32())
    }

    pub fn i64() -> (ty: Type)
        ensures
            ty@ == TypeView::Int(Int { signed: true, size: Some(64u8) }),
    {
        Type::Int(Int::i64())
    }

    pub fn i128() -> (ty: Type)
        ensures
            ty@ == TypeView::Int(Int { signed: true, size: Some(128u8) }),
    {
        Type::Int(Int::i128())
    }

    pub fn isize() -> (ty: Type)
        ensures
            ty@ == TypeView::Int(Int { signed: true, size: None }),
    {
        Type::Int(Int::isize())
    }

    pub fn u8() -> (ty: Type)
        ensures
            ty@ == TypeView::Int(Int { signed: false, size: Some(8u8) }),
    {
        Type::Int(Int::u8())
    }

    pub fn u16() -> (ty: Type)
        ensures
            ty@ == TypeView::Int(Int { signed: false, size: Some(16u8) }),
    {
        Type::Int(Int::u16())
    }

    pub fn u32() -> (ty: Type)
        ensures
            ty@ == TypeView::Int(Int { signed: false, size: Some(32u8) }),
    {
        Type::Int(Int::u32())
    }

    pub fn u64() -> (ty: Type)
        ensures
            ty@ == TypeView::Int(Int { signed: false, size: Some(64u8) }),
    {
        Type::Int(Int::u64())
    }

    pub fn u128() -> (ty: Type)
        ensures
            ty@ == TypeView::Int(Int { signed: false, size: Some(128u8) }),
    {
        Type::Int(Int::u128())
    }

    pub fn usize() -> (ty: Type)
        ensures
            ty@ == TypeView::Int(Int { signed: false, size: None }),
    {
        Type::Int(Int::usize())
    }

    /// The 16-bit floating-point type.
    pub fn half() -> (ty: Type)
        ensures
            ty@ == TypeView::Float(Float { size: 16 }),
    {
        Type::Float(Float::half())
    }

    /// The 32-bit floating-point type.
    pub fn single() -> (ty: Type)
        ensures
            ty@ == TypeView::Float(Float { size: 32 }),
    {
        Type::Float(Float::single())
    }

    /// The 64-bit floating-point type.
    pub fn double() -> (ty: Type)
        ensures
            ty@ == TypeView::Float(Float { size: 64 }),
    {
        Type::Float(Float::double())
    }
}

} // verus!
