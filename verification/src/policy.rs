//! The policy of one field: whether its type is wrapped, what it is renamed
//! to, and under which condition it is compiled.

use crate::classify::{is_marker_type, names_marker};
use crate::error::{viewed, GenerationError, UnsupportedType};
use crate::params::{Configuration, ConfigurationModel};
use crate::record::{Annotation, AnnotationModel, Field, FieldModel};
use crate::text::{copy_text, decimal, decimal_text, same_text};
use vstd::prelude::*;

verus! {

/// The annotation that gives a field's type in the overlay.
pub open spec fn is_rename(annotation: AnnotationModel) -> bool {
    annotation.name == "enumify_rename"@
}

/// The annotation that keeps a field's type unwrapped.
pub open spec fn is_skip_wrap(annotation: AnnotationModel) -> bool {
    annotation.name == "enumify_skip_wrap"@
}

/// The annotation that has a field's type wrapped.
pub open spec fn is_wrap(annotation: AnnotationModel) -> bool {
    annotation.name == "enumify_wrap"@
}

/// An annotation that settles the wrapping, one way or the other.
pub open spec fn is_wrap_override(annotation: AnnotationModel) -> bool {
    is_wrap(annotation) || is_skip_wrap(annotation)
}

/// An annotation of conditional compilation.
pub open spec fn is_guard(annotation: AnnotationModel) -> bool {
    annotation.name == "cfg"@
}

/// An annotation that only this generator reads.
pub open spec fn is_helper(annotation: AnnotationModel) -> bool {
    is_rename(annotation) || is_skip_wrap(annotation) || is_wrap(annotation)
}

/// A rename annotation that does not hold exactly one argument.
pub open spec fn is_malformed_rename(annotation: AnnotationModel) -> bool {
    is_rename(annotation) && annotation.arguments.len() != 1
}

/// The place of the last annotation of a kind, or -1 where there is none.
pub open spec fn last_index(
    annotations: Seq<AnnotationModel>,
    kind: spec_fn(AnnotationModel) -> bool,
) -> int
    decreases annotations.len(),
{
    if annotations.len() == 0 {
        -1
    } else if kind(annotations.last()) {
        annotations.len() - 1
    } else {
        last_index(annotations.drop_last(), kind)
    }
}

/// The four annotation names differ from each other.
pub proof fn annotation_kinds_are_disjoint(annotation: AnnotationModel)
    ensures
        !(is_rename(annotation) && is_skip_wrap(annotation)),
        !(is_rename(annotation) && is_wrap(annotation)),
        !(is_rename(annotation) && is_guard(annotation)),
        !(is_skip_wrap(annotation) && is_wrap(annotation)),
        !(is_skip_wrap(annotation) && is_guard(annotation)),
        !(is_wrap(annotation) && is_guard(annotation)),
{
    reveal_strlit("enumify_rename");
    reveal_strlit("enumify_skip_wrap");
    reveal_strlit("enumify_wrap");
    reveal_strlit("cfg");
    assert("enumify_rename"@.len() == 14);
    assert("enumify_skip_wrap"@.len() == 17);
    assert("enumify_wrap"@.len() == 12);
    assert("cfg"@.len() == 3);
}

/// What was decided for one field.
#[derive(Debug, PartialEq, Eq)]
pub struct FieldPolicy {
    /// Whether the field's type is wrapped in the marker type.
    pub wrap: bool,
    /// The type that the field gets in the overlay, where it is renamed.
    pub rename: Option<String>,
    /// The condition under which the field is compiled.
    pub guard: Option<Annotation>,
    /// How the field is reached: its identifier, or its position.
    pub member: String,
    /// Whether the field's declared type is the marker type.
    pub is_marker: bool,
}

/// The model of a field policy: texts as sequences of characters, lists as
/// sequences.
pub struct FieldPolicyModel {
    pub wrap: bool,
    pub rename: Option<Seq<char>>,
    pub guard: Option<AnnotationModel>,
    pub member: Seq<char>,
    pub is_marker: bool,
}

impl View for FieldPolicy {
    type V = FieldPolicyModel;

    open spec fn view(&self) -> FieldPolicyModel {
        FieldPolicyModel {
            wrap: self.wrap,
            rename: self.rename.deep_view(),
            guard: self.guard.deep_view(),
            member: self.member@,
            is_marker: self.is_marker,
        }
    }
}

impl DeepView for FieldPolicy {
    type V = FieldPolicyModel;

    open spec fn deep_view(&self) -> FieldPolicyModel {
        self.view()
    }
}

/// Whether a field with these annotations is wrapped. The last annotation
/// that settles the wrapping decides; without one, a renamed field is not
/// wrapped; without either, the field follows `otherwise`.
pub open spec fn decided_wrap(annotations: Seq<AnnotationModel>, otherwise: bool) -> bool {
    let settled = last_index(annotations, |a: AnnotationModel| is_wrap_override(a));
    if settled >= 0 {
        is_wrap(annotations[settled])
    } else if last_index(annotations, |a: AnnotationModel| is_rename(a)) >= 0 {
        false
    } else {
        otherwise
    }
}

/// The argument of the last rename annotation.
pub open spec fn decided_rename(annotations: Seq<AnnotationModel>) -> Option<Seq<char>> {
    let renamed = last_index(annotations, |a: AnnotationModel| is_rename(a));
    if renamed >= 0 {
        Some(annotations[renamed].arguments[0])
    } else {
        None
    }
}

/// The last annotation of conditional compilation.
pub open spec fn decided_guard(annotations: Seq<AnnotationModel>) -> Option<AnnotationModel> {
    let guarded = last_index(annotations, |a: AnnotationModel| is_guard(a));
    if guarded >= 0 {
        Some(annotations[guarded])
    } else {
        None
    }
}

/// How the field at `index` is reached.
pub open spec fn member_of(field: FieldModel, index: nat) -> Seq<char> {
    match field.name {
        Some(name) => name,
        None => decimal(index),
    }
}

/// The policy of the field at `index`. A type that cannot be compared with
/// the marker type is an error, whatever the annotations say; after that, so
/// is a rename annotation that does not hold exactly one argument.
pub open spec fn policy_of(field: FieldModel, index: nat, configuration: ConfigurationModel) -> Result<
    FieldPolicyModel,
    GenerationError,
> {
    match names_marker(field.ty.shape, configuration.marker) {
        Err(kind) => Err(GenerationError::UnsupportedType(kind)),
        Ok(is_marker) => if exists|i: int|
            0 <= i < field.annotations.len() && is_malformed_rename(#[trigger] field.annotations[i]) {
            Err(GenerationError::MalformedRename)
        } else {
            Ok(
                FieldPolicyModel {
                    wrap: decided_wrap(
                        field.annotations,
                        !is_marker && configuration.default_wrap,
                    ),
                    rename: decided_rename(field.annotations),
                    guard: decided_guard(field.annotations),
                    member: member_of(field, index),
                    is_marker,
                },
            )
        },
    }
}

/// The last annotation of a kind is one of the annotations, and of that kind.
pub proof fn last_index_is_of_kind(
    annotations: Seq<AnnotationModel>,
    kind: spec_fn(AnnotationModel) -> bool,
)
    ensures
        -1 <= last_index(annotations, kind) < annotations.len(),
        last_index(annotations, kind) >= 0 ==> kind(annotations[last_index(annotations, kind)]),
        forall|i: int|
            last_index(annotations, kind) < i < annotations.len() ==> !kind(
                #[trigger] annotations[i],
            ),
    decreases annotations.len(),
{
    if annotations.len() > 0 && !kind(annotations.last()) {
        last_index_is_of_kind(annotations.drop_last(), kind);
        assert forall|i: int| last_index(annotations, kind) < i < annotations.len() implies !kind(
            #[trigger] annotations[i],
        ) by {
            if i < annotations.len() - 1 {
                assert(annotations.drop_last()[i] == annotations[i]);
            }
        }
    }
}

proof fn last_index_step(
    annotations: Seq<AnnotationModel>,
    kind: spec_fn(AnnotationModel) -> bool,
    i: int,
)
    requires
        0 <= i < annotations.len(),
    ensures
        last_index(annotations.take(i + 1), kind) == if kind(annotations[i]) {
            i
        } else {
            last_index(annotations.take(i), kind)
        },
        last_index(annotations.take(0), kind) == -1,
        -1 <= last_index(annotations.take(i), kind) < i,
        last_index(annotations.take(i), kind) >= 0 ==> annotations.take(i)[last_index(
            annotations.take(i),
            kind,
        )] == annotations.take(i + 1)[last_index(annotations.take(i), kind)],
{
    assert(annotations.take(i + 1).drop_last() =~= annotations.take(i));
    last_index_is_of_kind(annotations.take(i), kind);
}

/// Finds the policy of the field at `index`.
pub fn classify_field(field: &Field, index: usize, configuration: &Configuration) -> (policy:
    Result<FieldPolicy, GenerationError>)
    ensures
        viewed(policy) == policy_of(field@, index as nat, configuration@),
{
    let is_marker = match is_marker_type(&field.ty.shape, &configuration.marker) {
        Ok(found) => found,
        Err(kind) => {
            return Err(GenerationError::UnsupportedType(kind));
        },
    };
    let ghost all = field@.annotations;
    let ghost otherwise = !is_marker && configuration.default_wrap;
    let mut overridden = false;
    let mut wrap = !is_marker && configuration.default_wrap;
    let mut guard: Option<Annotation> = None;
    let mut rename: Option<String> = None;
    let mut i: usize = 0;
    while i < field.annotations.len()
        invariant
            i <= field.annotations.len(),
            all == field.annotations.deep_view(),
            all.len() == field.annotations.len(),
            otherwise == (!is_marker && configuration.default_wrap),
            names_marker(field@.ty.shape, configuration@.marker) == Ok::<bool, UnsupportedType>(
                is_marker,
            ),
            forall|j: int| 0 <= j < i ==> !is_malformed_rename(#[trigger] all[j]),
            overridden == (last_index(all.take(i as int), |a: AnnotationModel| is_wrap_override(a))
                >= 0),
            wrap == decided_wrap(all.take(i as int), otherwise),
            rename.deep_view() == decided_rename(all.take(i as int)),
            guard.deep_view() == decided_guard(all.take(i as int)),
        decreases field.annotations.len() - i,
    {
        let annotation = &field.annotations[i];
        proof {
            annotation_kinds_are_disjoint(annotation@);
            last_index_step(all, |a: AnnotationModel| is_wrap_override(a), i as int);
            last_index_step(all, |a: AnnotationModel| is_rename(a), i as int);
            last_index_step(all, |a: AnnotationModel| is_guard(a), i as int);
        }
        if same_text(&annotation.name, "enumify_rename") {
            if annotation.arguments.len() != 1 {
                return Err(GenerationError::MalformedRename);
            }
            rename = Some(copy_text(&annotation.arguments[0]));
            if !overridden {
                wrap = false;
            }
        } else if same_text(&annotation.name, "enumify_skip_wrap") {
            wrap = false;
            overridden = true;
        } else if same_text(&annotation.name, "enumify_wrap") {
            wrap = true;
            overridden = true;
        } else if same_text(&annotation.name, "cfg") {
            guard = Some(annotation.clone());
        }
        i += 1;
    }
    assert(all.take(i as int) =~= all);
    let member = match &field.name {
        Some(name) => copy_text(name),
        None => decimal_text(index),
    };
    Ok(FieldPolicy { wrap, rename, guard, member, is_marker })
}

} // verus!
