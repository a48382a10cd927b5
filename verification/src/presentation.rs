//! Fixed presentation vocabulary: viewer pages, preview models, channel
//! roles, editor purposes, easing choices and layout breakpoints.

use vstd::prelude::*;
use crate::text::{append_decimal, append_str, decimal};

verus! {

/// The page shown in the main viewer stack.
#[derive(Clone, Copy, Debug, PartialEq, Eq, Structural)]
pub enum Page {
    Empty,
    Loading,
    Error,
    Success,
}

impl Page {
    /// The stack child name of a page.
    pub open spec fn name_spec(self) -> Seq<char> {
        match self {
            Page::Empty => "empty"@,
            Page::Loading => "loading"@,
            Page::Error => "error"@,
            Page::Success => "success"@,
        }
    }

    /// Returns the stack child name of this page.
    pub fn name(self) -> (name: &'static str)
        ensures
            name@ == self.name_spec(),
    {
        match self {
            Page::Empty => "empty",
            Page::Loading => "loading",
            Page::Error => "error",
            Page::Success => "success",
        }
    }
}

/// While a preview renders, an accepted preview stays on screen; otherwise
/// the loading page shows.
pub fn page_while_preview_pending(has_accepted_preview: bool) -> (page: Page)
    ensures
        page == (if has_accepted_preview {
            Page::Success
        } else {
            Page::Loading
        }),
{
    if has_accepted_preview {
        Page::Success
    } else {
        Page::Loading
    }
}

/// A failed preview keeps an accepted preview on screen; otherwise the error
/// page shows.
pub fn page_after_preview_error(has_accepted_preview: bool) -> (page: Page)
    ensures
        page == (if has_accepted_preview {
            Page::Success
        } else {
            Page::Error
        }),
{
    if has_accepted_preview {
        Page::Success
    } else {
        Page::Error
    }
}

/// The channel model of the preview.
#[derive(Clone, Copy, Debug, PartialEq, Eq, Structural)]
pub enum PreviewModel {
    Rgb,
    Cmyk,
    SourceColorAlpha,
}

impl PreviewModel {
    /// Every model, in selector order.
    pub fn all() -> (models: [PreviewModel; 3])
        ensures
            models@ == seq![PreviewModel::Rgb, PreviewModel::Cmyk, PreviewModel::SourceColorAlpha],
    {
        let models = [PreviewModel::Rgb, PreviewModel::Cmyk, PreviewModel::SourceColorAlpha];
        assert(models@ =~= seq![
            PreviewModel::Rgb,
            PreviewModel::Cmyk,
            PreviewModel::SourceColorAlpha,
        ]);
        models
    }

    /// The selector label of a model.
    pub open spec fn label_spec(self) -> Seq<char> {
        match self {
            PreviewModel::Rgb => "RGB"@,
            PreviewModel::Cmyk => "CMYK"@,
            PreviewModel::SourceColorAlpha => "Source color + alpha"@,
        }
    }

    /// Returns the selector label of this model.
    pub fn label(self) -> (label: &'static str)
        ensures
            label@ == self.label_spec(),
    {
        match self {
            PreviewModel::Rgb => "RGB",
            PreviewModel::Cmyk => "CMYK",
            PreviewModel::SourceColorAlpha => "Source color + alpha",
        }
    }

    /// The viewer style class of a model.
    pub open spec fn css_class_spec(self) -> Seq<char> {
        match self {
            PreviewModel::Rgb => "toniator-viewer-rgb"@,
            PreviewModel::Cmyk => "toniator-viewer-cmyk"@,
            PreviewModel::SourceColorAlpha => "toniator-viewer-source-color-alpha"@,
        }
    }

    /// Returns the viewer style class of this model.
    pub fn css_class(self) -> (class: &'static str)
        ensures
            class@ == self.css_class_spec(),
    {
        match self {
            PreviewModel::Rgb => "toniator-viewer-rgb",
            PreviewModel::Cmyk => "toniator-viewer-cmyk",
            PreviewModel::SourceColorAlpha => "toniator-viewer-source-color-alpha",
        }
    }
}

/// A selector change applies only when it was made by the artist, names a
/// different model, and a source is shown with no load in flight.
pub fn should_apply_model_change(
    syncing_model: bool,
    current_model: PreviewModel,
    selected_model: PreviewModel,
    loading: bool,
    has_source_presentation: bool,
) -> (apply: bool)
    ensures
        apply == (!syncing_model && current_model != selected_model && !loading
            && has_source_presentation),
{
    !syncing_model && current_model != selected_model && !loading && has_source_presentation
}

/// The role of a modeled channel.
#[derive(Clone, Copy, Debug, PartialEq, Eq, Structural)]
pub enum HalftoneChannelRole {
    Red,
    Green,
    Blue,
    Cyan,
    Magenta,
    Yellow,
    Black,
    SourceColor,
}

/// The display label of a channel role.
pub open spec fn role_label(role: HalftoneChannelRole) -> Seq<char> {
    match role {
        HalftoneChannelRole::Red => "Red"@,
        HalftoneChannelRole::Green => "Green"@,
        HalftoneChannelRole::Blue => "Blue"@,
        HalftoneChannelRole::Cyan => "Cyan"@,
        HalftoneChannelRole::Magenta => "Magenta"@,
        HalftoneChannelRole::Yellow => "Yellow"@,
        HalftoneChannelRole::Black => "Black"@,
        HalftoneChannelRole::SourceColor => "Source color"@,
    }
}

/// Returns the display label of a channel role.
pub fn channel_role_label(role: HalftoneChannelRole) -> (label: &'static str)
    ensures
        label@ == role_label(role),
{
    match role {
        HalftoneChannelRole::Red => "Red",
        HalftoneChannelRole::Green => "Green",
        HalftoneChannelRole::Blue => "Blue",
        HalftoneChannelRole::Cyan => "Cyan",
        HalftoneChannelRole::Magenta => "Magenta",
        HalftoneChannelRole::Yellow => "Yellow",
        HalftoneChannelRole::Black => "Black",
        HalftoneChannelRole::SourceColor => "Source color",
    }
}

/// How the document knows a channel: as a stored channel, as a modeled
/// channel with a role, or not at all.
#[derive(Clone, Copy, Debug, PartialEq, Eq, Structural)]
pub enum ChannelPresence {
    Stored,
    Modeled(HalftoneChannelRole),
    Missing,
}

/// The display name of a channel.
pub open spec fn channel_name(presence: ChannelPresence) -> Seq<char> {
    match presence {
        ChannelPresence::Stored => "Channel"@,
        ChannelPresence::Modeled(role) => role_label(role),
        ChannelPresence::Missing => "Unavailable channel"@,
    }
}

/// Returns the display name of a channel.
pub fn channel_display_name(presence: ChannelPresence) -> (name: String)
    ensures
        name@ == channel_name(presence),
{
    match presence {
        ChannelPresence::Stored => "Channel".to_owned(),
        ChannelPresence::Modeled(role) => channel_role_label(role).to_owned(),
        ChannelPresence::Missing => "Unavailable channel".to_owned(),
    }
}

/// The topology of an authored structure.
#[derive(Clone, Copy, Debug, PartialEq, Eq, Structural)]
pub enum AuthoredStructureKind {
    OpenPath,
    ClosedShape,
}

pub use crate::inspector::PatternEditorPurpose;

/// Which part of a pattern uses an authored structure.
#[derive(Clone, Copy, Debug, PartialEq, Eq, Structural)]
pub enum AuthoredUseKind {
    Guide,
    Mark,
}

/// `i` is the first structure with the ID `id`.
pub open spec fn is_first_with_id(structures: Seq<(AuthoredStructureKind, u64)>, id: u64, i: int) -> bool {
    &&& 0 <= i < structures.len()
    &&& structures[i].1 == id
    &&& forall|j: int| 0 <= j < i ==> (#[trigger] structures[j]).1 != id
}

/// The position of the first structure with the ID `id`, if any.
pub open spec fn first_with_id(structures: Seq<(AuthoredStructureKind, u64)>, id: u64) -> Option<int> {
    if exists|i: int| is_first_with_id(structures, id, i) {
        Some(choose|i: int| is_first_with_id(structures, id, i))
    } else {
        None
    }
}

/// How many structures of `kind` come before position `i`.
pub open spec fn same_kind_before(
    structures: Seq<(AuthoredStructureKind, u64)>,
    kind: AuthoredStructureKind,
    i: int,
) -> nat {
    structures.take(i).filter(of_kind(kind)).len()
}

/// Holds of the structures of `kind`.
pub open spec fn of_kind(kind: AuthoredStructureKind) -> spec_fn((AuthoredStructureKind, u64)) -> bool {
    |e: (AuthoredStructureKind, u64)| e.0 == kind
}

/// The summary's opening words for a use.
pub open spec fn use_prefix(use_kind: AuthoredUseKind) -> Seq<char> {
    match use_kind {
        AuthoredUseKind::Guide => "Guide path "@,
        AuthoredUseKind::Mark => "Mark shape "@,
    }
}

/// The summary of one use of the structure `id`: its one-based ordinal
/// among structures of its own kind and the name of the using channel.
pub open spec fn use_summary(
    structures: Seq<(AuthoredStructureKind, u64)>,
    id: u64,
    use_kind: AuthoredUseKind,
    channel: ChannelPresence,
) -> Seq<char> {
    match first_with_id(structures, id) {
        Some(i) => use_prefix(use_kind) + decimal(same_kind_before(structures, structures[i].0, i) + 1)
            + " used by "@ + channel_name(channel),
        None => "Unavailable authored-resource use"@,
    }
}

proof fn lemma_first_with_id(structures: Seq<(AuthoredStructureKind, u64)>, id: u64, i: int)
    requires
        is_first_with_id(structures, id, i),
    ensures
        first_with_id(structures, id) == Some(i),
{
    let k = choose|k: int| is_first_with_id(structures, id, k);
    assert(is_first_with_id(structures, id, k));
    if k < i {
        assert(structures[k].1 != id);
    } else if k > i {
        assert(structures[i].1 != id);
    }
}

/// Produces one stable artist-facing summary of an authored-structure use
/// without exposing the structure's ID.
///
/// `structures` lists the document's authored structures in order, each by
/// kind and ID; `channel` is how the document knows the using channel.
pub fn authored_use_summary(
    structures: &[(AuthoredStructureKind, u64)],
    id: u64,
    use_kind: AuthoredUseKind,
    channel: ChannelPresence,
) -> (summary: String)
    ensures
        summary@ == use_summary(structures@, id, use_kind, channel),
{
    let mut found: usize = 0;
    while found < structures.len() && structures[found].1 != id
        invariant
            0 <= found <= structures@.len(),
            forall|j: int| 0 <= j < found ==> (#[trigger] structures@[j]).1 != id,
        decreases structures@.len() - found,
    {
        found = found + 1;
    }
    if found == structures.len() {
        proof {
            if exists|i: int| is_first_with_id(structures@, id, i) {
                let k = choose|k: int| is_first_with_id(structures@, id, k);
                assert(structures@[k].1 == id);
            }
        }
        return "Unavailable authored-resource use".to_owned();
    }
    proof {
        lemma_first_with_id(structures@, id, found as int);
    }
    let kind = structures[found].0;
    let ghost p = of_kind(kind);
    let mut before: usize = 0;
    let mut j: usize = 0;
    while j < found
        invariant
            0 <= j <= found < structures@.len(),
            p == of_kind(kind),
            before == structures@.take(j as int).filter(p).len(),
            before <= j,
        decreases found - j,
    {
        proof {
            reveal(Seq::filter);
            assert(structures@.take(j + 1).drop_last() =~= structures@.take(j as int));
        }
        if structures[j].0 == kind {
            before = before + 1;
        }
        j = j + 1;
    }
    proof {
        assert(kind == structures@[found as int].0);
    }
    let mut summary = String::new();
    match use_kind {
        AuthoredUseKind::Guide => append_str(&mut summary, "Guide path "),
        AuthoredUseKind::Mark => append_str(&mut summary, "Mark shape "),
    }
    append_decimal(&mut summary, before as u64 + 1);
    append_str(&mut summary, " used by ");
    let name = channel_display_name(channel);
    append_str(&mut summary, name.as_str());
    summary
}


/// The only authored topology a purpose's editor may construct or edit.
pub open spec fn purpose_structure(purpose: PatternEditorPurpose) -> AuthoredStructureKind {
    match purpose {
        PatternEditorPurpose::Grid => AuthoredStructureKind::OpenPath,
        PatternEditorPurpose::Mark => AuthoredStructureKind::ClosedShape,
    }
}

/// Returns the only authored topology a purpose's editor may construct or
/// edit.
pub fn structure_kind(purpose: PatternEditorPurpose) -> (kind: AuthoredStructureKind)
    ensures
        kind == purpose_structure(purpose),
{
    match purpose {
        PatternEditorPurpose::Grid => AuthoredStructureKind::OpenPath,
        PatternEditorPurpose::Mark => AuthoredStructureKind::ClosedShape,
    }
}

/// The artist-facing editor title of a purpose.
pub open spec fn purpose_title(purpose: PatternEditorPurpose) -> Seq<char> {
    match purpose {
        PatternEditorPurpose::Grid => "Grid Pattern Editor"@,
        PatternEditorPurpose::Mark => "Mark Editor"@,
    }
}

/// Returns the artist-facing editor title without exposing implementation
/// IDs.
pub fn title(purpose: PatternEditorPurpose) -> (title: &'static str)
    ensures
        title@ == purpose_title(purpose),
{
    match purpose {
        PatternEditorPurpose::Grid => "Grid Pattern Editor",
        PatternEditorPurpose::Mark => "Mark Editor",
    }
}

/// The construction action of a purpose.
pub open spec fn purpose_action(purpose: PatternEditorPurpose) -> Seq<char> {
    match purpose {
        PatternEditorPurpose::Grid => "New guide path"@,
        PatternEditorPurpose::Mark => "New mark shape"@,
    }
}

/// Returns the explicit construction action available in a
/// purpose-specific editor.
pub fn construction_action_label(purpose: PatternEditorPurpose) -> (label: &'static str)
    ensures
        label@ == purpose_action(purpose),
{
    match purpose {
        PatternEditorPurpose::Grid => "New guide path",
        PatternEditorPurpose::Mark => "New mark shape",
    }
}

/// The editor width (in logical pixels) at and below which construction
/// switches to its vertical layout.
pub const NARROW_EDITOR_MAX_WIDTH_PX: i32 = 700;

/// The width of the construction resource list in the wide layout.
pub const CONSTRUCTION_SIDEBAR_WIDTH_PX: i32 = 320;

/// The minimum width requested for the construction canvas.
pub const CONSTRUCTION_CANVAS_MIN_WIDTH_PX: i32 = 220;

/// The horizontal margins of the editor shell.
pub const EDITOR_SHELL_MARGIN_PX: i32 = 24;

/// The gap between the resource list and the canvas.
pub const CONSTRUCTION_GAP_PX: i32 = 12;

/// Names the construction canvas's direct-manipulation gestures.
pub const CONSTRUCTION_CANVAS_GESTURE_HINT: &'static str = "Click to select or add points after choosing New. Scroll to zoom; middle-button drag pans. Enter completes; Escape cancels.";

/// Reports the inclusive width policy of the editor's narrow breakpoint.
pub fn uses_narrow_editor_layout(width: i32) -> (narrow: bool)
    ensures
        narrow == (width <= NARROW_EDITOR_MAX_WIDTH_PX),
{
    width <= NARROW_EDITOR_MAX_WIDTH_PX
}

/// Reports whether the construction widgets' explicit horizontal requests
/// leave room for the narrow breakpoint.
pub fn requested_construction_width_allows_narrow_breakpoint() -> (allows: bool)
    ensures
        allows == (CONSTRUCTION_SIDEBAR_WIDTH_PX + CONSTRUCTION_CANVAS_MIN_WIDTH_PX
            + CONSTRUCTION_GAP_PX + EDITOR_SHELL_MARGIN_PX < NARROW_EDITOR_MAX_WIDTH_PX),
        allows,
{
    CONSTRUCTION_SIDEBAR_WIDTH_PX + CONSTRUCTION_CANVAS_MIN_WIDTH_PX + CONSTRUCTION_GAP_PX
        + EDITOR_SHELL_MARGIN_PX < NARROW_EDITOR_MAX_WIDTH_PX
}

/// An interpolation easing.
#[derive(Clone, Copy, Debug, Eq)]
pub enum Easing {
    Linear,
    Hold,
    QuadraticIn,
    QuadraticOut,
    SmoothStep,
    SmoothInOut,
}

impl PartialEq for Easing {
    /// Two easings are equal when they are the same choice.
    fn eq(&self, other: &Self) -> (equal: bool) {
        easing_index(Some(*self)) == easing_index(Some(*other))
    }
}

impl vstd::std_specs::cmp::PartialEqSpecImpl for Easing {
    open spec fn obeys_eq_spec() -> bool {
        true
    }

    open spec fn eq_spec(&self, other: &Self) -> bool {
        *self == *other
    }
}

/// The number of easing choices.
pub const EASING_COUNT: usize = 6;

/// The easing at each selector position.
pub open spec fn easing_at_spec(index: int) -> Option<Easing> {
    if index == 0 {
        Some(Easing::Linear)
    } else if index == 1 {
        Some(Easing::Hold)
    } else if index == 2 {
        Some(Easing::QuadraticIn)
    } else if index == 3 {
        Some(Easing::QuadraticOut)
    } else if index == 4 {
        Some(Easing::SmoothStep)
    } else if index == 5 {
        Some(Easing::SmoothInOut)
    } else {
        None
    }
}

/// The selector position of each easing.
pub open spec fn easing_position(easing: Easing) -> nat {
    match easing {
        Easing::Linear => 0,
        Easing::Hold => 1,
        Easing::QuadraticIn => 2,
        Easing::QuadraticOut => 3,
        Easing::SmoothStep => 4,
        Easing::SmoothInOut => 5,
    }
}

/// The selector label of each easing.
pub open spec fn easing_label_spec(easing: Easing) -> Seq<char> {
    match easing {
        Easing::Linear => "Linear"@,
        Easing::Hold => "Hold until End"@,
        Easing::QuadraticIn => "Ease in"@,
        Easing::QuadraticOut => "Ease out"@,
        Easing::SmoothStep => "Smooth step"@,
        Easing::SmoothInOut => "Smooth in and out"@,
    }
}

/// Returns the easing at a selector position, if the position exists.
pub fn easing_at(index: usize) -> (easing: Option<Easing>)
    ensures
        easing == easing_at_spec(index as int),
{
    match index {
        0 => Some(Easing::Linear),
        1 => Some(Easing::Hold),
        2 => Some(Easing::QuadraticIn),
        3 => Some(Easing::QuadraticOut),
        4 => Some(Easing::SmoothStep),
        5 => Some(Easing::SmoothInOut),
        _ => None,
    }
}

/// Returns the selector position of an easing; an absent easing selects the
/// first position.
pub fn easing_index(easing: Option<Easing>) -> (index: usize)
    ensures
        index == match easing {
            Some(e) => easing_position(e),
            None => 0,
        },
{
    match easing {
        Some(Easing::Linear) | None => 0,
        Some(Easing::Hold) => 1,
        Some(Easing::QuadraticIn) => 2,
        Some(Easing::QuadraticOut) => 3,
        Some(Easing::SmoothStep) => 4,
        Some(Easing::SmoothInOut) => 5,
    }
}

/// Returns the selector label of an easing.
pub fn easing_label(easing: Easing) -> (label: &'static str)
    ensures
        label@ == easing_label_spec(easing),
{
    match easing {
        Easing::Linear => "Linear",
        Easing::Hold => "Hold until End",
        Easing::QuadraticIn => "Ease in",
        Easing::QuadraticOut => "Ease out",
        Easing::SmoothStep => "Smooth step",
        Easing::SmoothInOut => "Smooth in and out",
    }
}

/// Selecting the position shown for an easing selects that easing again, and
/// every position in range names an easing shown there.
pub proof fn lemma_easing_positions_round_trip(easing: Easing, index: int)
    ensures
        easing_position(easing) < EASING_COUNT,
        easing_at_spec(easing_position(easing) as int) == Some(easing),
        0 <= index < EASING_COUNT ==> easing_at_spec(index) is Some && easing_position(
            easing_at_spec(index)->0,
        ) == index,
{
}

} // verus!
