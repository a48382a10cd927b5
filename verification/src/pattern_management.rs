//! Widget-independent policy for personal Pattern management.
//!
//! The presentation owns dialogs and the personal library owns filesystem
//! publication. This module keeps the small decisions shared by those
//! boundaries explicit.

use vstd::prelude::*;
use crate::paths::{paths_equal, same_path};
use crate::text::str_eq;

verus! {

/// Where a captured catalog entry came from.
#[derive(Clone, Copy, Debug, PartialEq, Eq, Structural)]
pub enum PresetOrigin {
    BuiltIn,
    Personal,
}

/// Identifies the explicit write operation requested from Pattern management.
#[derive(Clone, Copy, Debug, PartialEq, Eq, Structural)]
pub enum PatternSaveAction {
    /// Creates a new personal record from a built-in, current, or new draft.
    AsNew,
    /// Replaces the selected personal record after an exact fingerprint check.
    Changes,
    /// Performs the stable-ID replacement after the confirmation dialog.
    ChangesConfirmed,
    /// Creates a fresh personal record without replacing the selected record.
    Copy,
}

/// The write actions offered for a captured origin.
pub open spec fn save_actions_spec(origin: Option<PresetOrigin>) -> Seq<PatternSaveAction> {
    match origin {
        Some(PresetOrigin::Personal) => seq![PatternSaveAction::Changes, PatternSaveAction::Copy],
        _ => seq![PatternSaveAction::AsNew],
    }
}

/// Returns the write actions allowed by the captured catalog origin.
///
/// A built-in or current/new draft never receives a stable personal update
/// route. The personal origin exposes both an explicit stable-ID update and
/// an explicit fresh-ID copy route.
pub fn save_actions_for_origin(origin: Option<PresetOrigin>) -> (actions: Vec<PatternSaveAction>)
    ensures
        actions@ == save_actions_spec(origin),
{
    match origin {
        Some(PresetOrigin::Personal) => vec![PatternSaveAction::Changes, PatternSaveAction::Copy],
        _ => vec![PatternSaveAction::AsNew],
    }
}

/// The Unicode lowercase mapping of a string, as `str::to_lowercase` computes it.
pub uninterp spec fn unicode_lowercase(text: Seq<char>) -> Seq<char>;

/// Lowercases `text` with `str::to_lowercase`.
#[verifier::external_body]
fn to_lowercase(text: &str) -> (lower: String)
    ensures
        lower@ == unicode_lowercase(text@),
{
    text.to_lowercase()
}

/// The entry `id` is not the one allowed to keep its name.
pub open spec fn is_other_id(id: Seq<char>, except_id: Option<&str>) -> bool {
    !(except_id matches Some(e) && e@ == id)
}

/// No entry other than `except_id` already uses the normalized name.
pub open spec fn normalized_name_free(
    entries: Seq<(Seq<char>, Seq<char>)>,
    normalized: Seq<char>,
    except_id: Option<&str>,
) -> bool {
    forall|i: int|
        0 <= i < entries.len() ==> !(is_other_id(entries[i].0, except_id) && entries[i].1
            == normalized)
}

/// The (id, name) views of a list of catalog entries.
pub open spec fn entry_views(names: Seq<(&str, &str)>) -> Seq<(Seq<char>, Seq<char>)> {
    names.map_values(|e: (&str, &str)| (e.0@, e.1@))
}

/// The (id, lowercased name) views of a list of catalog entries.
pub open spec fn lowered_views(names: Seq<(&str, &str)>) -> Seq<(Seq<char>, Seq<char>)> {
    names.map_values(|e: (&str, &str)| (e.0@, unicode_lowercase(e.1@)))
}

/// Reports whether a normalized name is free among entries whose names are
/// already normalized, except for the entry allowed to keep its name.
pub fn normalized_name_is_available(
    entries: &[(&str, String)],
    normalized: &str,
    except_id: Option<&str>,
) -> (available: bool)
    ensures
        available == normalized_name_free(
            entries@.map_values(|e: (&str, String)| (e.0@, e.1@)),
            normalized@,
            except_id,
        ),
{
    let ghost views = entries@.map_values(|e: (&str, String)| (e.0@, e.1@));
    let mut i: usize = 0;
    while i < entries.len()
        invariant
            0 <= i <= entries@.len(),
            views == entries@.map_values(|e: (&str, String)| (e.0@, e.1@)),
            forall|j: int|
                0 <= j < i ==> !(is_other_id(views[j].0, except_id) && views[j].1 == normalized@),
        decreases entries@.len() - i,
    {
        let (id, name) = (entries[i].0, entries[i].1.as_str());
        let other = match except_id {
            Some(e) => !str_eq(e, id),
            None => true,
        };
        if other && str_eq(name, normalized) {
            assert(is_other_id(views[i as int].0, except_id) && views[i as int].1 == normalized@);
            return false;
        }
        i = i + 1;
    }
    true
}

/// Reports whether a display name is available in a combined catalog.
///
/// Names compare by their Unicode lowercase mapping, matching the catalog's
/// existing identity policy. One existing ID may retain its current name
/// during a stable-ID rename or Save Changes operation.
pub fn name_is_available(names: &[(&str, &str)], requested: &str, except_id: Option<&str>) -> (available: bool)
    ensures
        available == normalized_name_free(
            lowered_views(names@),
            unicode_lowercase(requested@),
            except_id,
        ),
{
    let normalized = to_lowercase(requested);
    let mut entries: Vec<(&str, String)> = Vec::new();
    let mut i: usize = 0;
    while i < names.len()
        invariant
            0 <= i <= names@.len(),
            entries@.len() == i,
            forall|j: int|
                0 <= j < i ==> entries@[j].0@ == names@[j].0@ && entries@[j].1@ == unicode_lowercase(
                    names@[j].1@,
                ),
        decreases names@.len() - i,
    {
        entries.push((names[i].0, to_lowercase(names[i].1)));
        i = i + 1;
    }
    let available = normalized_name_is_available(&entries, normalized.as_str(), except_id);
    proof {
        assert(entries@.map_values(|e: (&str, String)| (e.0@, e.1@)) =~= lowered_views(names@));
    }
    available
}

/// Describes why a captured Pattern write cannot use its original target.
#[derive(Clone, Copy, Debug, PartialEq, Eq, Structural)]
pub enum PatternSaveConflict {
    /// The configured active library root changed while the draft was open.
    RootChanged,
    /// The observed bytes differ from the captured bytes.
    FingerprintChanged,
}

/// Two optional texts are both absent, or both present and equal.
pub open spec fn same_text(a: Option<&str>, b: Option<&str>) -> bool {
    match (a, b) {
        (None, None) => true,
        (Some(x), Some(y)) => x@ == y@,
        _ => false,
    }
}

fn same_optional_text(a: Option<&str>, b: Option<&str>) -> (same: bool)
    ensures
        same == same_text(a, b),
{
    match (a, b) {
        (None, None) => true,
        (Some(x), Some(y)) => str_eq(x, y),
        _ => false,
    }
}

/// Two optional roots are both absent, or both present and the same path.
pub open spec fn same_root(a: Option<&[u8]>, b: Option<&[u8]>) -> bool {
    match (a, b) {
        (None, None) => true,
        (Some(x), Some(y)) => same_path(x@, y@),
        _ => false,
    }
}

/// Checks that a captured personal target still points at the same active
/// root and exact bytes before a stable-ID write.
///
/// Roots are given by their path bytes and compared by path components, as
/// `std::path::Path` equality does on Unix. Fresh-ID saves intentionally do
/// not use this check; they remain available as the recovery route after an
/// external edit or root switch.
pub fn captured_target_is_current(
    captured_root: Option<&[u8]>,
    current_root: Option<&[u8]>,
    captured_fingerprint: Option<&str>,
    current_fingerprint: Option<&str>,
) -> (current: Result<(), PatternSaveConflict>)
    ensures
        !same_root(captured_root, current_root) ==> current == Err::<(), PatternSaveConflict>(
            PatternSaveConflict::RootChanged,
        ),
        same_root(captured_root, current_root) && !same_text(
            captured_fingerprint,
            current_fingerprint,
        ) ==> current == Err::<(), PatternSaveConflict>(PatternSaveConflict::FingerprintChanged),
        same_root(captured_root, current_root) && same_text(
            captured_fingerprint,
            current_fingerprint,
        ) ==> current == Ok::<(), PatternSaveConflict>(()),
{
    let same_roots = match (captured_root, current_root) {
        (None, None) => true,
        (Some(x), Some(y)) => paths_equal(x, y),
        _ => false,
    };
    if !same_roots {
        return Err(PatternSaveConflict::RootChanged);
    }
    if !same_optional_text(captured_fingerprint, current_fingerprint) {
        return Err(PatternSaveConflict::FingerprintChanged);
    }
    Ok(())
}

} // verus!
