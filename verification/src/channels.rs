//! Stable channel identity and the selection policies that read an
//! authoritative channel order.

use vstd::prelude::*;

verus! {

/// Stable identity of one document channel.
#[derive(Clone, Copy, Debug, PartialEq, Eq, Structural)]
pub struct ChannelId(pub u32);

/// The scope whose inactive choices a scatter memory records: the whole
/// document, or one named channel.
#[derive(Clone, Copy, Debug, PartialEq, Eq, Structural)]
pub enum InspectorTarget {
    DocumentAll,
    Channel(ChannelId),
}

/// GTK's sentinel for "no list position".
pub const INVALID_LIST_POSITION: u32 = 0xffff_ffffu32;

/// The channel kept selected after a document transition: the old selection
/// when it survives, else the first authoritative channel, else nothing.
pub open spec fn channel_after_transition(
    selected: Option<ChannelId>,
    order: Seq<ChannelId>,
) -> Option<ChannelId> {
    if selected is Some && order.contains(selected->0) {
        selected
    } else if order.len() > 0 {
        Some(order[0])
    } else {
        None
    }
}

/// Reports whether `id` occurs in `order`.
fn order_contains(order: &[ChannelId], id: ChannelId) -> (found: bool)
    ensures
        found == order@.contains(id),
{
    let mut i: usize = 0;
    while i < order.len()
        invariant
            0 <= i <= order.len(),
            forall|j: int| 0 <= j < i ==> order@[j] != id,
        decreases order.len() - i,
    {
        if order[i] == id {
            assert(order@[i as int] == id);
            return true;
        }
        i = i + 1;
    }
    false
}

/// Preserves the selected stable channel ID when it survives a document
/// transition and otherwise chooses the first authoritative channel. This
/// policy never invents a channel ID and returns `None` for an empty topology.
pub fn selected_channel_after_transition(
    selected: Option<ChannelId>,
    authoritative_order: &[ChannelId],
) -> (next: Option<ChannelId>)
    ensures
        next == channel_after_transition(selected, authoritative_order@),
{
    if let Some(id) = selected {
        if order_contains(authoritative_order, id) {
            return selected;
        }
    }
    if authoritative_order.len() > 0 {
        Some(authoritative_order[0])
    } else {
        None
    }
}

/// Resolves a GTK selector position through the current authoritative channel
/// order. Invalid GTK positions and positions outside that order are rejected
/// so a notification can never select a stale or fabricated channel.
pub fn channel_id_at_selector_position(
    position: u32,
    authoritative_order: &[ChannelId],
) -> (id: Option<ChannelId>)
    ensures
        id == (if position != INVALID_LIST_POSITION && position < authoritative_order@.len() {
            Some(authoritative_order@[position as int])
        } else {
            None
        }),
{
    if position == INVALID_LIST_POSITION {
        return None;
    }
    let index = position as usize;
    if index < authoritative_order.len() {
        Some(authoritative_order[index])
    } else {
        None
    }
}

/// A selection that survives a transition stays selected, and whatever is
/// selected afterwards is a member of the authoritative order.
pub proof fn lemma_selection_never_invents_a_channel(
    selected: Option<ChannelId>,
    order: Seq<ChannelId>,
)
    ensures
        channel_after_transition(selected, order) matches Some(id) ==> order.contains(id),
        selected matches Some(id) && order.contains(id) ==> channel_after_transition(selected, order)
            == selected,
        order.len() == 0 ==> channel_after_transition(selected, order) is None,
{
    if channel_after_transition(selected, order) is Some && !(selected is Some && order.contains(
        selected->0,
    )) {
        assert(order[0] == order[0]);
        assert(order.contains(order[0]));
    }
}

} // verus!
