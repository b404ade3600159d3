//! The fields of the two records that come out of a generation.

use crate::params::{Configuration, ConfigurationModel};
use crate::classify::names_marker;
use crate::error::UnsupportedType;
use crate::policy::{
    decided_rename, is_skip_wrap, is_wrap, is_wrap_override, last_index_is_of_kind, policy_of,
    FieldPolicy, FieldPolicyModel,
};
use crate::record::AnnotationModel;
use crate::record::{
    copy_annotations, copy_optional_text, Field, FieldModel, FieldType, FieldTypeModel, TypeShape,
    TypeShapeModel, Visibility, VisibilityModel,
};
use crate::strip::{strip_helpers, stripped};
use crate::text::copy_text;
use vstd::prelude::*;
use vstd::string::*;

verus! {

/// The type of a field in the overlay: the type it is renamed to, or else its
/// declared type, wrapped in the marker type where the policy wraps.
pub open spec fn overlay_type_text(
    declared: Seq<char>,
    policy: FieldPolicyModel,
    marker: Seq<char>,
) -> Seq<char> {
    let chosen = match policy.rename {
        Some(renamed) => renamed,
        None => declared,
    };
    if policy.wrap {
        marker + "<"@ + chosen + ">"@
    } else {
        chosen
    }
}

/// Writes the type of a field in the overlay.
pub fn overlay_type(declared: &String, policy: &FieldPolicy, marker: &String) -> (text: String)
    ensures
        text@ == overlay_type_text(declared@, policy@, marker@),
{
    let chosen = match &policy.rename {
        Some(renamed) => copy_text(renamed),
        None => copy_text(declared),
    };
    if policy.wrap {
        let mut text = copy_text(marker);
        text.append("<");
        text.append(chosen.as_str());
        text.append(">");
        text
    } else {
        chosen
    }
}

/// Who may see a field of the overlay.
pub open spec fn overlay_visibility(declared: VisibilityModel, promote: bool) -> VisibilityModel {
    if promote {
        VisibilityModel::Public
    } else {
        declared
    }
}

/// The field as the record keeps it: without the generator's own annotations.
pub open spec fn cleaned_field(field: FieldModel) -> FieldModel {
    FieldModel { annotations: stripped(field.annotations), ..field }
}

/// The field as the overlay has it: without the generator's own annotations,
/// public where the configuration promotes, under its own name, with its
/// overlay type.
pub open spec fn overlay_field(
    field: FieldModel,
    policy: FieldPolicyModel,
    configuration: ConfigurationModel,
) -> FieldModel {
    FieldModel {
        annotations: stripped(field.annotations),
        visibility: overlay_visibility(field.visibility, configuration.promote_visibility),
        name: field.name,
        ty: FieldTypeModel {
            text: overlay_type_text(field.ty.text, policy, configuration.marker),
            shape: TypeShapeModel::Verbatim,
        },
    }
}

/// The field as the record keeps it.
pub fn clean_field(field: &Field) -> (cleaned: Field)
    ensures
        cleaned@ == cleaned_field(field@),
{
    let mut annotations = copy_annotations(&field.annotations);
    strip_helpers(&mut annotations);
    Field {
        annotations,
        visibility: field.visibility.clone(),
        name: copy_optional_text(&field.name),
        ty: field.ty.clone(),
    }
}

/// The field as the overlay has it.
pub fn make_overlay_field(field: &Field, policy: &FieldPolicy, configuration: &Configuration) -> (made:
    Field)
    ensures
        made@ == overlay_field(field@, policy@, configuration@),
{
    let mut annotations = copy_annotations(&field.annotations);
    strip_helpers(&mut annotations);
    let visibility = if configuration.promote_visibility {
        Visibility::Public
    } else {
        field.visibility.clone()
    };
    Field {
        annotations,
        visibility,
        name: copy_optional_text(&field.name),
        ty: FieldType {
            text: overlay_type(&field.ty.text, policy, &configuration.marker),
            shape: TypeShape::Verbatim,
        },
    }
}

/// A field whose declared type is the marker type is not wrapped, whatever
/// the configuration says, as long as no annotation on it asks for wrapping:
/// its type in the overlay is the type it is renamed to, or its declared type.
pub proof fn marker_field_is_not_wrapped_unasked(
    field: FieldModel,
    index: nat,
    configuration: ConfigurationModel,
)
    requires
        names_marker(field.ty.shape, configuration.marker) == Ok::<bool, UnsupportedType>(true),
        policy_of(field, index, configuration) is Ok,
        forall|i: int| 0 <= i < field.annotations.len() ==> !is_wrap(#[trigger] field.annotations[i]),
    ensures
        !policy_of(field, index, configuration)->Ok_0.wrap,
        overlay_field(field, policy_of(field, index, configuration)->Ok_0, configuration).ty.text
            == match decided_rename(field.annotations) {
            Some(renamed) => renamed,
            None => field.ty.text,
        },
{
    last_index_is_of_kind(field.annotations, |a: AnnotationModel| is_wrap_override(a));
}

/// A field is wrapped, also where its declared type is the marker type, where
/// an annotation on it asks for wrapping and none asks for the contrary: its
/// type in the overlay is the marker type around the type it is renamed to,
/// or around its declared type.
pub proof fn asked_wrapping_wraps(field: FieldModel, index: nat, configuration: ConfigurationModel)
    requires
        policy_of(field, index, configuration) is Ok,
        exists|i: int| 0 <= i < field.annotations.len() && is_wrap(#[trigger] field.annotations[i]),
        forall|i: int|
            0 <= i < field.annotations.len() ==> !is_skip_wrap(#[trigger] field.annotations[i]),
    ensures
        policy_of(field, index, configuration)->Ok_0.wrap,
        overlay_field(field, policy_of(field, index, configuration)->Ok_0, configuration).ty.text
            == configuration.marker + "<"@ + (match decided_rename(field.annotations) {
            Some(renamed) => renamed,
            None => field.ty.text,
        }) + ">"@,
{
    last_index_is_of_kind(field.annotations, |a: AnnotationModel| is_wrap_override(a));
}

} // verus!
