//! Taking the generator's own annotations off a field.

use crate::policy::{annotation_kinds_are_disjoint, is_guard, is_helper};
use crate::record::{Annotation, AnnotationModel};
use crate::text::same_text;
use vstd::prelude::*;

verus! {

/// The annotations that stay on a field: those that are no helper, in the
/// order in which they stood.
pub open spec fn stripped(annotations: Seq<AnnotationModel>) -> Seq<AnnotationModel> {
    annotations.filter(|annotation: AnnotationModel| !is_helper(annotation))
}

/// Whether only this generator reads the annotation.
pub fn is_helper_annotation(annotation: &Annotation) -> (helper: bool)
    ensures
        helper == is_helper(annotation@),
{
    same_text(&annotation.name, "enumify_rename") || same_text(
        &annotation.name,
        "enumify_skip_wrap",
    ) || same_text(&annotation.name, "enumify_wrap")
}

/// Takes the generator's own annotations off the list; the others stay, in
/// their order.
pub fn strip_helpers(annotations: &mut Vec<Annotation>)
    ensures
        final(annotations).deep_view() == stripped(old(annotations).deep_view()),
{
    let ghost all = annotations.deep_view();
    let ghost other = |annotation: AnnotationModel| !is_helper(annotation);
    let mut kept: Vec<Annotation> = Vec::new();
    let mut i: usize = 0;
    while i < annotations.len()
        invariant
            i <= annotations.len(),
            all == annotations.deep_view(),
            other == |annotation: AnnotationModel| !is_helper(annotation),
            kept.deep_view() == all.take(i as int).filter(other),
        decreases annotations.len() - i,
    {
        proof {
            reveal(Seq::filter);
            assert(all.take(i as int + 1).drop_last() =~= all.take(i as int));
        }
        if !is_helper_annotation(&annotations[i]) {
            kept.push(annotations[i].clone());
        }
        i += 1;
    }
    assert(all.take(i as int) =~= all);
    *annotations = kept;
}

/// None of the annotations that stay is a helper.
pub proof fn stripping_removes_every_helper(annotations: Seq<AnnotationModel>)
    ensures
        forall|k: int|
            0 <= k < stripped(annotations).len() ==> !is_helper(#[trigger] stripped(annotations)[k]),
{
}

/// A list without helpers stays as it is.
pub proof fn stripping_leaves_a_clean_list(annotations: Seq<AnnotationModel>)
    requires
        forall|k: int| 0 <= k < annotations.len() ==> !is_helper(#[trigger] annotations[k]),
    ensures
        stripped(annotations) == annotations,
    decreases annotations.len(),
{
    reveal(Seq::filter);
    if annotations.len() > 0 {
        let front = annotations.drop_last();
        stripping_leaves_a_clean_list(front);
    }
}

/// The conditions of compilation stay, all of them and in their order.
pub proof fn stripping_keeps_the_guards(annotations: Seq<AnnotationModel>)
    ensures
        stripped(annotations).filter(|annotation: AnnotationModel| is_guard(annotation))
            == annotations.filter(|annotation: AnnotationModel| is_guard(annotation)),
    decreases annotations.len(),
{
    reveal(Seq::filter);
    let other = |annotation: AnnotationModel| !is_helper(annotation);
    let guard = |annotation: AnnotationModel| is_guard(annotation);
    if annotations.len() > 0 {
        let front = annotations.drop_last();
        let last = annotations.last();
        stripping_keeps_the_guards(front);
        annotation_kinds_are_disjoint(last);
        if other(last) {
            front.filter(other).lemma_filter_push(last, guard);
        }
    }
}

} // verus!
