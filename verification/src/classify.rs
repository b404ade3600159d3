//! Whether a declared type is the marker type.

use crate::error::UnsupportedType;
use crate::record::{TypeShape, TypeShapeModel};
use vstd::prelude::*;

verus! {

/// A path names the marker type where its last segment is the marker's
/// identifier.
pub open spec fn path_names(segments: Seq<Seq<char>>, marker: Seq<char>) -> bool {
    segments.len() > 0 && segments.last() == marker
}

/// Whether a type of this outline is the marker type, looking through
/// parentheses; an error for the outlines of which it cannot be told.
pub open spec fn names_marker(shape: TypeShapeModel, marker: Seq<char>) -> Result<
    bool,
    UnsupportedType,
>
    decreases shape,
{
    match shape {
        TypeShapeModel::Path(segments) => Ok(path_names(segments, marker)),
        TypeShapeModel::Array => Ok(false),
        TypeShapeModel::Tuple => Ok(false),
        TypeShapeModel::Paren(inner) => names_marker(*inner, marker),
        TypeShapeModel::ImplTrait => Err(UnsupportedType::ImplTrait),
        TypeShapeModel::TraitObject => Err(UnsupportedType::TraitObject),
        TypeShapeModel::Infer => Err(UnsupportedType::Inferred),
        TypeShapeModel::Macro => Err(UnsupportedType::Macro),
        TypeShapeModel::Reference => Err(UnsupportedType::Reference),
        TypeShapeModel::Never => Err(UnsupportedType::Never),
        TypeShapeModel::Slice => Err(UnsupportedType::Slice),
        TypeShapeModel::Pointer => Err(UnsupportedType::Pointer),
        TypeShapeModel::BareFn => Err(UnsupportedType::FunctionPointer),
        TypeShapeModel::Verbatim => Err(UnsupportedType::Unrecognized),
    }
}

/// Whether the path ends in the marker's identifier.
pub fn is_marker_path(segments: &Vec<String>, marker: &String) -> (found: bool)
    ensures
        found == path_names(segments.deep_view(), marker@),
{
    let count = segments.len();
    if count == 0 {
        false
    } else {
        segments[count - 1] == *marker
    }
}

/// Whether the type is the marker type, looking through parentheses.
pub fn is_marker_type(shape: &TypeShape, marker: &String) -> (found: Result<bool, UnsupportedType>)
    ensures
        found == names_marker(shape@, marker@),
    decreases shape,
{
    match shape {
        TypeShape::Path(segments) => Ok(is_marker_path(segments, marker)),
        TypeShape::Array => Ok(false),
        TypeShape::Tuple => Ok(false),
        TypeShape::Paren(inner) => is_marker_type(inner, marker),
        TypeShape::ImplTrait => Err(UnsupportedType::ImplTrait),
        TypeShape::TraitObject => Err(UnsupportedType::TraitObject),
        TypeShape::Infer => Err(UnsupportedType::Inferred),
        TypeShape::Macro => Err(UnsupportedType::Macro),
        TypeShape::Reference => Err(UnsupportedType::Reference),
        TypeShape::Never => Err(UnsupportedType::Never),
        TypeShape::Slice => Err(UnsupportedType::Slice),
        TypeShape::Pointer => Err(UnsupportedType::Pointer),
        TypeShape::BareFn => Err(UnsupportedType::FunctionPointer),
        TypeShape::Verbatim => Err(UnsupportedType::Unrecognized),
    }
}

} // verus!
