//! Paint-assignment policy: which inspector fields are paint components, and
//! the unanimous value shown for a group of channels.

use vstd::prelude::*;
use crate::channels::ChannelId;
use crate::inspector::{PropertyFieldId, PropertyTarget};
use crate::presentation::Easing;
use vstd::std_specs::cmp::PartialEqSpec;

verus! {

/// One of the four canonical paint components.
#[derive(Clone, Copy, Debug, PartialEq, Eq, Structural)]
pub enum ColorComponent {
    Red,
    Green,
    Blue,
    Alpha,
}

/// The paint component a field edits, if any.
pub open spec fn component_spec(field: PropertyFieldId) -> Option<ColorComponent> {
    match field {
        PropertyFieldId::ColorRed => Some(ColorComponent::Red),
        PropertyFieldId::ColorGreen => Some(ColorComponent::Green),
        PropertyFieldId::ColorBlue => Some(ColorComponent::Blue),
        PropertyFieldId::ColorAlpha => Some(ColorComponent::Alpha),
        _ => None,
    }
}

/// Identifies the four canonical paint components, independent of document
/// channel roles.
pub fn component(field: PropertyFieldId) -> (component: Option<ColorComponent>)
    ensures
        component == component_spec(field),
{
    match field {
        PropertyFieldId::ColorRed => Some(ColorComponent::Red),
        PropertyFieldId::ColorGreen => Some(ColorComponent::Green),
        PropertyFieldId::ColorBlue => Some(ColorComponent::Blue),
        PropertyFieldId::ColorAlpha => Some(ColorComponent::Alpha),
        _ => None,
    }
}

/// Every value equals the first, by `T`'s equality.
pub open spec fn unanimous<T: PartialEq>(values: Seq<T>) -> bool {
    values.len() > 0 && forall|i: int| 0 <= i < values.len() ==> (#[trigger] values[i]).eq_spec(&values[0])
}

/// Returns a shared value only when every value agrees with the first; an
/// empty or mixed group has none.
pub fn common<T: PartialEq + Clone>(values: &[T]) -> (shared: Option<T>)
    ensures
        T::obeys_eq_spec() ==> (shared is Some <==> unanimous(values@)),
        shared matches Some(v) ==> values@.len() > 0 && cloned(values@[0], v),
{
    if values.len() == 0 {
        return None;
    }
    let mut i: usize = 0;
    while i < values.len()
        invariant
            0 < values@.len(),
            0 <= i <= values@.len(),
            T::obeys_eq_spec() ==> forall|j: int| 0 <= j < i ==> values@[j].eq_spec(&values@[0]),
        decreases values@.len() - i,
    {
        if !(values[i] == values[0]) {
            return None;
        }
        i = i + 1;
    }
    Some(values[0].clone())
}

/// What one temporal end override animates: a channel's grouped color, or
/// one scalar field of a target.
#[derive(Clone, Copy, Debug, PartialEq, Eq, Structural)]
pub enum EndOverrideTarget {
    Color(ChannelId),
    Scalar(PropertyTarget, PropertyFieldId),
}

/// The override animates a paint component of `channel`.
pub open spec fn animates_component_of(target: EndOverrideTarget, channel: ChannelId) -> bool {
    target matches EndOverrideTarget::Scalar(t, field) && t == PropertyTarget::Channel(channel)
        && component_spec(field) is Some
}

/// The position of `channel`'s grouped color override, if any.
pub open spec fn is_group_of(overrides: Seq<(EndOverrideTarget, Easing)>, channel: ChannelId, i: int) -> bool {
    &&& 0 <= i < overrides.len()
    &&& overrides[i].0 == EndOverrideTarget::Color(channel)
    &&& forall|j: int| 0 <= j < i ==> (#[trigger] overrides[j]).0 != EndOverrideTarget::Color(channel)
}

/// The easings of the per-component overrides of `channel`, in order.
pub open spec fn component_easings(overrides: Seq<(EndOverrideTarget, Easing)>, channel: ChannelId) -> Seq<
    Easing,
>
    decreases overrides.len(),
{
    if overrides.len() == 0 {
        Seq::empty()
    } else {
        let earlier = component_easings(overrides.drop_last(), channel);
        if animates_component_of(overrides.last().0, channel) {
            earlier.push(overrides.last().1)
        } else {
            earlier
        }
    }
}

/// The easing shown for `channel`: its grouped animation's easing, else the
/// easing all its component animations share (linear when it has none), and
/// none when they are mixed.
pub open spec fn shown_easing(overrides: Seq<(EndOverrideTarget, Easing)>, channel: ChannelId) -> Option<
    Easing,
> {
    if exists|i: int| is_group_of(overrides, channel, i) {
        Some(overrides[choose|i: int| is_group_of(overrides, channel, i)].1)
    } else {
        let easings = component_easings(overrides, channel);
        if easings.len() == 0 {
            Some(Easing::Linear)
        } else if forall|i: int| 0 <= i < easings.len() ==> #[trigger] easings[i] == easings[0] {
            Some(easings[0])
        } else {
            None
        }
    }
}

/// Reads a channel's grouped easing or the easing its component animations
/// share; mixed component easings stay visibly mixed.
///
/// `overrides` lists the document's temporal end overrides in order, each by
/// what it animates and its easing.
pub fn channel_easing(overrides: &[(EndOverrideTarget, Easing)], channel: ChannelId) -> (easing:
    Option<Easing>)
    ensures
        easing == shown_easing(overrides@, channel),
{
    let mut i: usize = 0;
    while i < overrides.len()
        invariant
            0 <= i <= overrides@.len(),
            forall|j: int| 0 <= j < i ==> (#[trigger] overrides@[j]).0 != EndOverrideTarget::Color(channel),
        decreases overrides@.len() - i,
    {
        if overrides[i].0 == EndOverrideTarget::Color(channel) {
            proof {
                assert(is_group_of(overrides@, channel, i as int));
                let k = choose|k: int| is_group_of(overrides@, channel, k);
                assert(is_group_of(overrides@, channel, k));
                if k < i {
                    assert(overrides@[k].0 != EndOverrideTarget::Color(channel));
                } else if k > i {
                    assert(overrides@[i as int].0 != EndOverrideTarget::Color(channel));
                }
            }
            return Some(overrides[i].1);
        }
        i = i + 1;
    }
    proof {
        if exists|k: int| is_group_of(overrides@, channel, k) {
            let k = choose|k: int| is_group_of(overrides@, channel, k);
            assert(overrides@[k].0 == EndOverrideTarget::Color(channel));
        }
    }
    let mut easings: Vec<Easing> = Vec::new();
    let mut j: usize = 0;
    while j < overrides.len()
        invariant
            0 <= j <= overrides@.len(),
            easings@ == component_easings(overrides@.take(j as int), channel),
        decreases overrides@.len() - j,
    {
        proof {
            assert(overrides@.take(j + 1).drop_last() =~= overrides@.take(j as int));
        }
        let (target, easing) = overrides[j];
        let animates = match target {
            EndOverrideTarget::Scalar(t, field) => t == PropertyTarget::Channel(channel) && component(
                field,
            ).is_some(),
            EndOverrideTarget::Color(_) => false,
        };
        if animates {
            easings.push(easing);
        }
        j = j + 1;
    }
    proof {
        assert(overrides@.take(overrides@.len() as int) =~= overrides@);
    }
    if easings.len() == 0 {
        return Some(Easing::Linear);
    }
    let first = easings[0];
    let mut k: usize = 0;
    while k < easings.len()
        invariant
            0 < easings@.len(),
            !exists|g: int| is_group_of(overrides@, channel, g),
            easings@ == component_easings(overrides@, channel),
            first == easings@[0],
            0 <= k <= easings@.len(),
            forall|m: int| 0 <= m < k ==> easings@[m] == first,
        decreases easings@.len() - k,
    {
        if easings[k] != first {
            assert(easings@[k as int] != easings@[0]);
            return None;
        }
        k = k + 1;
    }
    Some(first)
}

/// The override is retimed by an easing edit of `channels`: a grouped color
/// of one of them, or a paint component of one of them.
pub open spec fn retimed_by(target: EndOverrideTarget, channels: Seq<ChannelId>) -> bool {
    match target {
        EndOverrideTarget::Color(channel) => channels.contains(channel),
        EndOverrideTarget::Scalar(t, field) => component_spec(field) is Some && (
        t matches PropertyTarget::Channel(channel) && channels.contains(channel)),
    }
}

/// `overrides` after an easing edit of `channels` to `next`.
pub open spec fn retimed(
    overrides: Seq<(EndOverrideTarget, Easing)>,
    channels: Seq<ChannelId>,
    next: Easing,
) -> Seq<(EndOverrideTarget, Easing)> {
    overrides.map_values(
        |o: (EndOverrideTarget, Easing)|
            (o.0, if retimed_by(o.0, channels) {
                next
            } else {
                o.1
            }),
    )
}

/// Sets the easing of every override of `channels`' paint animation to
/// `next`, leaving every other override and the order unchanged.
pub fn retime_overrides(
    overrides: &mut Vec<(EndOverrideTarget, Easing)>,
    channels: &[ChannelId],
    next: Easing,
)
    ensures
        final(overrides)@ == retimed(old(overrides)@, channels@, next),
{
    let ghost before = overrides@;
    let mut i: usize = 0;
    while i < overrides.len()
        invariant
            0 <= i <= overrides@.len(),
            overrides@.len() == before.len(),
            forall|j: int|
                0 <= j < i ==> #[trigger] overrides@[j] == (
                before[j].0,
                if retimed_by(before[j].0, channels@) {
                    next
                } else {
                    before[j].1
                },
            ),
            forall|j: int| i <= j < overrides@.len() ==> #[trigger] overrides@[j] == before[j],
        decreases overrides@.len() - i,
    {
        let (target, easing) = overrides[i];
        let retimed = match target {
            EndOverrideTarget::Color(channel) => contains_channel(channels, channel),
            EndOverrideTarget::Scalar(t, field) => component(field).is_some() && match t {
                PropertyTarget::Channel(channel) => contains_channel(channels, channel),
                _ => false,
            },
        };
        if retimed {
            overrides.set(i, (target, next));
        }
        i = i + 1;
    }
    proof {
        assert(overrides@ =~= retimed(before, channels@, next));
    }
}

proof fn lemma_retimed_components(
    overrides: Seq<(EndOverrideTarget, Easing)>,
    channels: Seq<ChannelId>,
    next: Easing,
    channel: ChannelId,
)
    requires
        channels.contains(channel),
    ensures
        component_easings(retimed(overrides, channels, next), channel).len() == component_easings(
            overrides,
            channel,
        ).len(),
        forall|i: int|
            0 <= i < component_easings(overrides, channel).len() ==> #[trigger] component_easings(
                retimed(overrides, channels, next),
                channel,
            )[i] == next,
    decreases overrides.len(),
{
    if overrides.len() > 0 {
        let earlier = overrides.drop_last();
        assert(retimed(overrides, channels, next).drop_last() =~= retimed(earlier, channels, next));
        lemma_retimed_components(earlier, channels, next, channel);
    }
}

/// An easing edit is read back: after `channels` are retimed to `next`,
/// each of them that has any paint animation shows `next`.
pub proof fn lemma_retimed_easing_is_shown(
    overrides: Seq<(EndOverrideTarget, Easing)>,
    channels: Seq<ChannelId>,
    next: Easing,
    channel: ChannelId,
)
    requires
        channels.contains(channel),
        (exists|i: int| is_group_of(overrides, channel, i)) || component_easings(
            overrides,
            channel,
        ).len() > 0,
    ensures
        shown_easing(retimed(overrides, channels, next), channel) == Some(next),
{
    let after = retimed(overrides, channels, next);
    assert forall|j: int| 0 <= j < overrides.len() implies (#[trigger] after[j]).0
        == overrides[j].0 by {}
    assert forall|i: int| is_group_of(after, channel, i) <==> is_group_of(overrides, channel, i) by {
        if is_group_of(after, channel, i) {
            assert forall|j: int| 0 <= j < i implies (#[trigger] overrides[j]).0
                != EndOverrideTarget::Color(channel) by {
                assert(after[j].0 != EndOverrideTarget::Color(channel));
            }
        }
        if is_group_of(overrides, channel, i) {
            assert forall|j: int| 0 <= j < i implies (#[trigger] after[j]).0
                != EndOverrideTarget::Color(channel) by {
                assert(overrides[j].0 != EndOverrideTarget::Color(channel));
            }
        }
    }
    lemma_retimed_components(overrides, channels, next, channel);
    if exists|i: int| is_group_of(after, channel, i) {
        let k = choose|i: int| is_group_of(after, channel, i);
        assert(after[k].0 == EndOverrideTarget::Color(channel));
        assert(retimed_by(overrides[k].0, channels));
    } else {
        let easings = component_easings(after, channel);
        assert(easings.len() > 0);
        assert(easings[0] == next);
    }
}

fn contains_channel(channels: &[ChannelId], channel: ChannelId) -> (found: bool)
    ensures
        found == channels@.contains(channel),
{
    let mut i: usize = 0;
    while i < channels.len()
        invariant
            0 <= i <= channels@.len(),
            forall|j: int| 0 <= j < i ==> channels@[j] != channel,
        decreases channels@.len() - i,
    {
        if channels[i] == channel {
            assert(channels@[i as int] == channel);
            return true;
        }
        i = i + 1;
    }
    false
}

} // verus!
