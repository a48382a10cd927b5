//! Ordered image-sequence review: the reviewed order is the source frame
//! order, edited only by explicit adjacent moves and removals.

use vstd::prelude::*;

verus! {

/// The largest number of frames one sequence may hold.
pub const MAX_SEQUENCE_FRAMES: usize = 1_000_000;

/// What an order edit does: `None` when nothing may change, else the new
/// order and the row to select afterwards.
pub open spec fn order_edit<T>(
    paths: Seq<T>,
    busy: bool,
    index: int,
    movement: Option<isize>,
) -> Option<(Seq<T>, Option<int>)> {
    if busy || index < 0 || index >= paths.len() {
        None
    } else {
        match movement {
            Some(step) => {
                let destination = index + step;
                if destination < 0 || destination >= paths.len() {
                    None
                } else {
                    Some(
                        (
                            paths.update(index, paths[destination]).update(
                                destination,
                                paths[index],
                            ),
                            Some(destination),
                        ),
                    )
                }
            },
            None => {
                let remaining = paths.remove(index);
                Some(
                    (
                        remaining,
                        if index == remaining.len() {
                            if index == 0 {
                                None
                            } else {
                                Some(index - 1)
                            }
                        } else {
                            Some(index)
                        },
                    ),
                )
            },
        }
    }
}

/// Applies one reviewed adjacent move (`Some(step)`) or removal (`None`) of
/// the selected row, unless an operation is in flight or the selection or
/// destination is outside the list.
///
/// Returns `None` when nothing changed, else the row to select afterwards.
pub fn edit_order<T>(
    paths: &mut Vec<T>,
    busy: bool,
    index: usize,
    movement: Option<isize>,
) -> (selected: Option<Option<usize>>)
    ensures
        match order_edit(old(paths)@, busy, index as int, movement) {
            None => selected is None && final(paths)@ == old(paths)@,
            Some((order, row)) => final(paths)@ == order && selected is Some && match row {
                Some(r) => selected->0 == Some(r as usize),
                None => selected->0 is None,
            },
        },
{
    if busy || index >= paths.len() {
        return None;
    }
    match movement {
        Some(step) => {
            let target: i128 = index as i128 + step as i128;
            if target < 0 || target >= paths.len() as i128 {
                return None;
            }
            let destination = target as usize;
            let ghost old_paths = paths@;
            if destination != index {
                let low = if index < destination {
                    index
                } else {
                    destination
                };
                let high = if index < destination {
                    destination
                } else {
                    index
                };
                assert(low < high && high < paths.len());
                let high_item = paths.remove(high);
                let low_item = paths.remove(low);
                paths.insert(low, high_item);
                paths.insert(high, low_item);
                assert(paths@ =~= old_paths.update(index as int, old_paths[destination as int]).update(
                    destination as int,
                    old_paths[index as int],
                ));
            } else {
                assert(paths@ =~= old_paths.update(index as int, old_paths[destination as int]).update(
                    destination as int,
                    old_paths[index as int],
                ));
            }
            Some(Some(destination))
        },
        None => {
            paths.remove(index);
            if index == paths.len() {
                if index == 0 {
                    Some(None)
                } else {
                    Some(Some(index - 1))
                }
            } else {
                Some(Some(index))
            }
        },
    }
}

/// A move only reorders the sequence: it keeps every frame and its count.
pub proof fn lemma_moves_keep_frames<T>(paths: Seq<T>, index: int, step: isize)
    requires
        order_edit(paths, false, index, Some(step)) is Some,
    ensures
        ({
            let (order, row) = order_edit(paths, false, index, Some(step))->0;
            &&& order.len() == paths.len()
            &&& order.to_multiset() == paths.to_multiset()
            &&& row == Some(index + step)
        }),
{
    let destination = index + step;
    let once = paths.update(index, paths[destination]);
    let order = once.update(destination, paths[index]);
    if destination == index {
        assert(order =~= paths);
    } else {
        vstd::seq_lib::to_multiset_update(paths, index, paths[destination]);
        vstd::seq_lib::to_multiset_update(once, destination, paths[index]);
        assert(once[destination] == paths[destination]);
        assert(paths.to_multiset().count(paths[index]) > 0) by {
            vstd::seq_lib::to_multiset_contains(paths, paths[index]);
            assert(paths.contains(paths[index]));
        }
        assert(order.to_multiset() =~= paths.to_multiset()) by {
            broadcast use vstd::multiset::group_multiset_axioms;
        }
    }
}

/// Whether `added` more frames still fit in one sequence.
pub fn can_append(current: usize, added: usize) -> (fits: bool)
    ensures
        fits == (current + added <= MAX_SEQUENCE_FRAMES),
{
    current.saturating_add(added) <= MAX_SEQUENCE_FRAMES
}

/// Which review controls are available.
#[derive(Clone, Copy, Debug, PartialEq, Eq, Structural)]
pub struct SequenceSensitivity {
    pub add: bool,
    pub list: bool,
    pub rate: bool,
    pub remove: bool,
    pub earlier: bool,
    pub later: bool,
    pub import: bool,
}

/// Projects control availability from the selection, the frame-rate input
/// and the exclusive operation in flight.
pub fn sequence_sensitivity(busy: bool, selected: usize, len: usize, rate_valid: bool) -> (sensitivity:
    SequenceSensitivity)
    ensures
        sensitivity.add == !busy,
        sensitivity.list == !busy,
        sensitivity.rate == !busy,
        sensitivity.remove == (!busy && selected < len),
        sensitivity.earlier == (!busy && selected < len && selected > 0),
        sensitivity.later == (!busy && selected < len && selected + 1 < len),
        sensitivity.import == (!busy && len > 0 && rate_valid),
{
    let valid_selection = selected < len;
    SequenceSensitivity {
        add: !busy,
        list: !busy,
        rate: !busy,
        remove: !busy && valid_selection,
        earlier: !busy && valid_selection && selected > 0,
        later: !busy && valid_selection && selected + 1 < len,
        import: !busy && len > 0 && rate_valid,
    }
}

} // verus!
