//! Folding an overlay onto a base: the traits that overlays and marker types
//! implement, and, for each way of folding a field, a function that does to
//! the field what the statement of a generated implementation does.

use vstd::prelude::*;
use vstd::std_specs::convert::TryIntoSpec;

verus! {

/// A marker value that can be turned into the plain value it stands for.
pub trait ResolveToBase<T> {
    /// The plain value that `resolve_to_base` yields. It is left open here;
    /// an implementation in verified code says what it is.
    open spec fn resolved(&self) -> T {
        arbitrary()
    }

    /// The plain value that this marker value stands for.
    fn resolve_to_base(&self) -> (base: T)
        ensures
            base == self.resolved(),
    ;
}

/// An overlay that can be folded onto a value of its base type.
pub trait Applicable: Sized {
    type Base;

    /// The base value after this overlay has been applied to `base`. It is
    /// left open here; an implementation in verified code says what it is.
    open spec fn applied(self, base: Self::Base) -> Self::Base {
        arbitrary()
    }

    /// Applies this overlay to `base` and returns the base.
    fn build(self, base: Self::Base) -> (built: Self::Base)
        ensures
            built == self.applied(base),
    {
        let mut base = base;
        self.apply_to(&mut base);
        base
    }

    /// Applies this overlay to `base` in place, field by field; a field that
    /// is itself an overlay is applied in the same way.
    fn apply_to(self, base: &mut Self::Base)
        ensures
            *final(base) == self.applied(*old(base)),
    ;
}

/// What `apply_if_present` leaves in a field that held `base`.
pub open spec fn gated<O: Applicable>(overlay: Option<O>, base: Option<O::Base>) -> Option<
    O::Base,
> {
    match (overlay, base) {
        (Some(inner), Some(existing)) => Some(inner.applied(existing)),
        _ => base,
    }
}

/// Plain overwrite: the field takes the overlay's value, whatever it held.
pub fn overwrite<T>(target: &mut T, value: T)
    ensures
        *final(target) == value,
{
    *target = value;
}

/// Recursive apply: the overlay's nested record is applied to the field.
pub fn apply_nested<O: Applicable>(target: &mut O::Base, overlay: O)
    ensures
        *final(target) == overlay.applied(*old(target)),
{
    overlay.apply_to(target);
}

/// Presence-gated apply: the nested overlay is applied only where both it and
/// the field are present; otherwise the field is left as it was.
pub fn apply_if_present<O: Applicable>(target: &mut Option<O::Base>, overlay: Option<O>)
    ensures
        *final(target) == gated(overlay, *old(target)),
{
    if let Some(inner) = overlay {
        if let Some(existing) = target {
            inner.apply_to(existing);
        }
    }
}

/// Resolve and overwrite: the field takes the value that the marker resolves to.
pub fn resolve_and_overwrite<M: ResolveToBase<T>, T>(target: &mut T, overlay: M)
    ensures
        *final(target) == overlay.resolved(),
{
    *target = overlay.resolve_to_base();
}

/// Resolve, then apply: the marker resolves to a nested overlay, which is
/// applied to the field.
pub fn resolve_then_apply<M: ResolveToBase<O>, O: Applicable>(target: &mut O::Base, overlay: M)
    ensures
        *final(target) == overlay.resolved().applied(*old(target)),
{
    let inner = overlay.resolve_to_base();
    inner.apply_to(target);
}

/// Apply or install: a present field has the nested overlay applied to it; an
/// absent one receives the overlay's own conversion, and stays absent where
/// that conversion fails.
pub fn apply_or_install<O: Applicable + TryInto<O::Base>>(
    target: &mut Option<O::Base>,
    overlay: O,
)
    ensures
        *old(target) matches Some(existing) ==> *final(target) == Some(overlay.applied(existing)),
        *old(target) is None && O::obeys_try_into_spec() ==> *final(target) == (
        match overlay.try_into_spec() {
            Ok(converted) => Some(converted),
            Err(_) => None,
        }),
{
    if let Some(existing) = target {
        overlay.apply_to(existing);
    } else {
        *target = overlay.try_into().ok();
    }
}

/// A presence-gated field changes only where both sides are present: then the
/// nested overlay is applied to what the field held.
pub proof fn gated_applies_where_both_are_present<O: Applicable>(
    overlay: Option<O>,
    base: Option<O::Base>,
)
    ensures
        overlay is Some && base is Some ==> gated(overlay, base) == Some(
            overlay->Some_0.applied(base->Some_0),
        ),
        overlay is None || base is None ==> gated(overlay, base) == base,
{
}

/// An absent overlay leaves a presence-gated field as it was, present or not.
pub proof fn absent_overlay_leaves_the_field<O: Applicable>(base: Option<O::Base>)
    ensures
        gated::<O>(None, base) == base,
{
}

} // verus!
