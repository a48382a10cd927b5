//! End-override inspector policy: which descriptors can animate, which
//! stored override a row edits, and what a reset or an easing change does to
//! the stored overrides.
//!
//! Overrides are addressed by their authoritative target and field, never by
//! visible labels; end values stay with the document.

use vstd::prelude::*;
use crate::inspector::{PropertyFieldId, PropertyTarget};
use crate::paint::EndOverrideTarget;
use crate::presentation::{Easing, easing_index, easing_position};

verus! {

/// How a descriptor's value may animate between Start and End.
#[derive(Clone, Copy, Debug, PartialEq, Eq, Structural)]
pub enum TemporalCapability {
    /// The value does not animate.
    Static,
    /// The value animates as a scalar.
    Scalar,
    /// The value animates as a scalar or as part of a grouped color.
    ScalarAndGroupedColor,
}

/// Reports whether a descriptor offers scalar End controls.
pub fn eligible(capability: TemporalCapability) -> (eligible: bool)
    ensures
        eligible == (capability != TemporalCapability::Static),
{
    match capability {
        TemporalCapability::Scalar | TemporalCapability::ScalarAndGroupedColor => true,
        TemporalCapability::Static => false,
    }
}

/// The override is the scalar End override of `field` on `target`.
pub open spec fn is_scalar_override_of(
    entry: EndOverrideTarget,
    target: PropertyTarget,
    field: PropertyFieldId,
) -> bool {
    entry == EndOverrideTarget::Scalar(target, field)
}

/// `i` is the first scalar override of `field` on `target`.
pub open spec fn is_first_scalar_override<T>(
    overrides: Seq<(EndOverrideTarget, T)>,
    target: PropertyTarget,
    field: PropertyFieldId,
    i: int,
) -> bool {
    &&& 0 <= i < overrides.len()
    &&& is_scalar_override_of(overrides[i].0, target, field)
    &&& forall|j: int|
        0 <= j < i ==> !is_scalar_override_of(#[trigger] overrides[j].0, target, field)
}

/// The easing of the stored scalar End override of `field` on `target`.
pub open spec fn stored_easing(
    overrides: Seq<(EndOverrideTarget, Easing)>,
    target: PropertyTarget,
    field: PropertyFieldId,
) -> Option<Easing> {
    if exists|i: int| is_first_scalar_override(overrides, target, field, i) {
        Some(overrides[choose|i: int| is_first_scalar_override(overrides, target, field, i)].1)
    } else {
        None
    }
}

/// Returns the easing of the stored scalar End override a row edits, if the
/// row has one.
pub fn scalar_override_easing(
    overrides: &[(EndOverrideTarget, Easing)],
    target: PropertyTarget,
    field: PropertyFieldId,
) -> (easing: Option<Easing>)
    ensures
        easing == stored_easing(overrides@, target, field),
{
    let wanted = EndOverrideTarget::Scalar(target, field);
    let mut i: usize = 0;
    while i < overrides.len()
        invariant
            wanted == EndOverrideTarget::Scalar(target, field),
            0 <= i <= overrides@.len(),
            forall|j: int|
                0 <= j < i ==> !is_scalar_override_of(#[trigger] overrides@[j].0, target, field),
        decreases overrides@.len() - i,
    {
        if overrides[i].0 == wanted {
            proof {
                assert(is_first_scalar_override(overrides@, target, field, i as int));
                let k = choose|k: int| is_first_scalar_override(overrides@, target, field, k);
                assert(is_first_scalar_override(overrides@, target, field, k));
                if k < i {
                    assert(!is_scalar_override_of(overrides@[k].0, target, field));
                } else if k > i {
                    assert(!is_scalar_override_of(overrides@[i as int].0, target, field));
                }
            }
            return Some(overrides[i].1);
        }
        i = i + 1;
    }
    proof {
        if exists|k: int| is_first_scalar_override(overrides@, target, field, k) {
            let k = choose|k: int| is_first_scalar_override(overrides@, target, field, k);
            assert(is_scalar_override_of(overrides@[k].0, target, field));
        }
    }
    None
}

/// `overrides` after the easing of `field` on `target` changed to `easing`.
pub open spec fn with_easing(
    overrides: Seq<(EndOverrideTarget, Easing)>,
    target: PropertyTarget,
    field: PropertyFieldId,
    easing: Easing,
) -> Seq<(EndOverrideTarget, Easing)> {
    overrides.map_values(
        |o: (EndOverrideTarget, Easing)|
            (o.0, if is_scalar_override_of(o.0, target, field) {
                easing
            } else {
                o.1
            }),
    )
}

/// Changes the easing of the scalar End override of `field` on `target`
/// without touching its end value or any other override.
pub fn set_scalar_easing(
    overrides: &mut Vec<(EndOverrideTarget, Easing)>,
    target: PropertyTarget,
    field: PropertyFieldId,
    easing: Easing,
)
    ensures
        final(overrides)@ == with_easing(old(overrides)@, target, field, easing),
{
    let ghost before = overrides@;
    let wanted = EndOverrideTarget::Scalar(target, field);
    let mut i: usize = 0;
    while i < overrides.len()
        invariant
            wanted == EndOverrideTarget::Scalar(target, field),
            0 <= i <= overrides@.len(),
            overrides@.len() == before.len(),
            forall|j: int|
                0 <= j < i ==> #[trigger] overrides@[j] == with_easing(before, target, field, easing)[j],
            forall|j: int| i <= j < overrides@.len() ==> #[trigger] overrides@[j] == before[j],
        decreases overrides@.len() - i,
    {
        let entry = overrides[i].0;
        if entry == wanted {
            overrides.set(i, (entry, easing));
        }
        i = i + 1;
    }
    proof {
        assert(overrides@ =~= with_easing(before, target, field, easing));
    }
}

/// `overrides` without the scalar End override of `field` on `target`.
pub open spec fn without_override<T>(
    overrides: Seq<(EndOverrideTarget, T)>,
    target: PropertyTarget,
    field: PropertyFieldId,
) -> Seq<(EndOverrideTarget, T)>
    decreases overrides.len(),
{
    if overrides.len() == 0 {
        Seq::empty()
    } else {
        let earlier = without_override(overrides.drop_last(), target, field);
        if is_scalar_override_of(overrides.last().0, target, field) {
            earlier
        } else {
            earlier.push(overrides.last())
        }
    }
}

/// Removes only the scalar End override of `field` on `target`, keeping
/// every other override, with whatever it carries, in order.
pub fn remove_scalar_override<T: Copy>(
    overrides: &mut Vec<(EndOverrideTarget, T)>,
    target: PropertyTarget,
    field: PropertyFieldId,
)
    ensures
        final(overrides)@ == without_override(old(overrides)@, target, field),
{
    let wanted = EndOverrideTarget::Scalar(target, field);
    let mut kept: Vec<(EndOverrideTarget, T)> = Vec::new();
    let mut i: usize = 0;
    while i < overrides.len()
        invariant
            wanted == EndOverrideTarget::Scalar(target, field),
            0 <= i <= overrides@.len(),
            kept@ == without_override(overrides@.take(i as int), target, field),
        decreases overrides@.len() - i,
    {
        proof {
            assert(overrides@.take(i + 1).drop_last() =~= overrides@.take(i as int));
        }
        let entry = overrides[i];
        if entry.0 != wanted {
            kept.push(entry);
        }
        i = i + 1;
    }
    proof {
        assert(overrides@.take(overrides@.len() as int) =~= overrides@);
    }
    *overrides = kept;
}

/// What a row's End controls show for the override it edits, if any.
#[derive(Clone, Copy, Debug, PartialEq, Eq, Structural)]
pub struct EndControls {
    /// Reset and easing respond only to a stored override.
    pub editable: bool,
    /// The selected easing position; linear when there is no override.
    pub easing_index: usize,
}

/// The hint shown under a row's End controls.
pub open spec fn end_hint_text(has_override: bool) -> Seq<char> {
    if has_override {
        "This setting has an End override."@
    } else {
        "End follows Start and inherited animation."@
    }
}

/// Returns the hint shown under a row's End controls.
pub fn end_hint(has_override: bool) -> (hint: &'static str)
    ensures
        hint@ == end_hint_text(has_override),
{
    if has_override {
        "This setting has an End override."
    } else {
        "End follows Start and inherited animation."
    }
}

/// Projects a row's End controls from its stored override easing.
pub fn end_controls(stored: Option<Easing>) -> (controls: EndControls)
    ensures
        controls.editable == stored is Some,
        controls.easing_index == match stored {
            Some(e) => easing_position(e),
            None => 0,
        },
{
    EndControls { editable: stored.is_some(), easing_index: easing_index(stored) }
}

proof fn lemma_without_override_excludes<T>(
    overrides: Seq<(EndOverrideTarget, T)>,
    target: PropertyTarget,
    field: PropertyFieldId,
)
    ensures
        forall|i: int|
            0 <= i < without_override(overrides, target, field).len() ==> !is_scalar_override_of(
                #[trigger] without_override(overrides, target, field)[i].0,
                target,
                field,
            ),
    decreases overrides.len(),
{
    if overrides.len() > 0 {
        let earlier = without_override(overrides.drop_last(), target, field);
        lemma_without_override_excludes(overrides.drop_last(), target, field);
        let all = without_override(overrides, target, field);
        assert forall|i: int| 0 <= i < all.len() implies !is_scalar_override_of(
            #[trigger] all[i].0,
            target,
            field,
        ) by {
            if i < earlier.len() {
                assert(all[i] == earlier[i]);
            }
        }
    }
}

/// Resetting a row's End removes its override: afterwards the row reads no
/// stored easing.
pub proof fn lemma_reset_clears_the_row(
    overrides: Seq<(EndOverrideTarget, Easing)>,
    target: PropertyTarget,
    field: PropertyFieldId,
)
    ensures
        stored_easing(without_override(overrides, target, field), target, field) is None,
{
    lemma_without_override_excludes(overrides, target, field);
    let after = without_override(overrides, target, field);
    if exists|i: int| is_first_scalar_override(after, target, field, i) {
        let k = choose|i: int| is_first_scalar_override(after, target, field, i);
        assert(is_scalar_override_of(after[k].0, target, field));
    }
}

/// An easing change is read back: a row with an override then reads the new
/// easing, and a row without one still reads none.
pub proof fn lemma_easing_change_is_read_back(
    overrides: Seq<(EndOverrideTarget, Easing)>,
    target: PropertyTarget,
    field: PropertyFieldId,
    easing: Easing,
)
    ensures
        stored_easing(with_easing(overrides, target, field, easing), target, field) == match stored_easing(
            overrides,
            target,
            field,
        ) {
            Some(_) => Some(easing),
            None => None,
        },
{
    let after = with_easing(overrides, target, field, easing);
    assert forall|i: int| is_first_scalar_override(after, target, field, i)
        <==> is_first_scalar_override(overrides, target, field, i) by {
        if 0 <= i < overrides.len() {
            assert(after[i].0 == overrides[i].0);
        }
        if is_first_scalar_override(after, target, field, i) {
            assert forall|j: int| 0 <= j < i implies !is_scalar_override_of(
                #[trigger] overrides[j].0,
                target,
                field,
            ) by {
                assert(after[j].0 == overrides[j].0);
            }
        }
        if is_first_scalar_override(overrides, target, field, i) {
            assert forall|j: int| 0 <= j < i implies !is_scalar_override_of(
                #[trigger] after[j].0,
                target,
                field,
            ) by {
                assert(after[j].0 == overrides[j].0);
            }
        }
    }
}

} // verus!
