//! Selection and gating state of the private authored-path editor: what is
//! selected, whether construction is in progress, which shared resources
//! already received an explicit edit policy, and when Apply may publish.
//!
//! Geometry, viewport and hit testing stay with the canvas; this state holds
//! only the discrete decisions around them.

use vstd::prelude::*;
use crate::channels::ChannelId;
use crate::presentation::AuthoredStructureKind;

verus! {

/// Stable identity of an authored structure.
#[derive(Clone, Copy, Debug, PartialEq, Eq, Structural)]
pub struct AuthoredStructureId(pub u64);

/// One editable construction point addressed without widget identity.
#[derive(Clone, Copy, Debug, PartialEq, Eq, Structural)]
pub enum NumericTarget {
    Anchor(usize),
    Control1(usize),
    Control2(usize),
}

/// The step a keyboard nudge moves by.
#[derive(Clone, Copy, Debug, PartialEq, Eq, Structural)]
pub enum NudgeStep {
    /// One tenth of a document unit.
    Precise,
    /// One document unit.
    Unit,
    /// Ten document units.
    Coarse,
}

/// Returns the deterministic nudge step; Control precision takes precedence
/// over Shift.
pub fn nudge_step(shift: bool, control: bool) -> (step: NudgeStep)
    ensures
        step == (if control {
            NudgeStep::Precise
        } else if shift {
            NudgeStep::Coarse
        } else {
            NudgeStep::Unit
        }),
{
    if control {
        NudgeStep::Precise
    } else if shift {
        NudgeStep::Coarse
    } else {
        NudgeStep::Unit
    }
}

/// How a replacement of one authored path proceeds.
#[derive(Clone, Copy, Debug, PartialEq, Eq, Structural)]
pub enum PathReplacementRoute {
    /// Another shared-resource choice is still pending.
    Blocked,
    /// The path has several uses and no edit policy yet: ask first, naming
    /// the use at position `active` as the one this editor changes.
    Disclose { active: usize },
    /// Apply the replacement directly.
    Apply,
}

/// `i` is the first use by `channel`.
pub open spec fn is_first_use(use_channels: Seq<ChannelId>, channel: ChannelId, i: int) -> bool {
    &&& 0 <= i < use_channels.len()
    &&& use_channels[i] == channel
    &&& forall|j: int| 0 <= j < i ==> use_channels[j] != channel
}

/// The use this editor changes: the first use by the selected channel, else
/// the first use.
pub open spec fn active_use(use_channels: Seq<ChannelId>, selected: ChannelId) -> int {
    if exists|i: int| is_first_use(use_channels, selected, i) {
        choose|i: int| is_first_use(use_channels, selected, i)
    } else {
        0
    }
}

/// How a replacement of `structure_id` proceeds, given the paths already
/// armed with an edit policy.
pub open spec fn route_for(
    armed: Set<AuthoredStructureId>,
    structure_id: AuthoredStructureId,
    pending: bool,
    use_channels: Seq<ChannelId>,
    selected: ChannelId,
) -> PathReplacementRoute {
    if pending {
        PathReplacementRoute::Blocked
    } else if use_channels.len() > 1 && !armed.contains(structure_id) {
        PathReplacementRoute::Disclose { active: active_use(use_channels, selected) as usize }
    } else {
        PathReplacementRoute::Apply
    }
}

/// What a shared-resource choice came to.
#[derive(Clone, Copy, Debug, PartialEq, Eq, Structural)]
pub enum SharedEditResult {
    /// Every use was edited, or the edit failed when `applied` is false.
    EditedAll { applied: bool },
    /// The current use was retargeted to the new copy, or the copy failed.
    Copied(Option<AuthoredStructureId>),
}

/// Which authored path the editor edits.
#[derive(Clone, Copy, Debug, PartialEq, Eq, Structural)]
pub enum AuthoredPathEditorMode {
    /// A guide spanning the workspace frame.
    Guide,
    /// A repeating motif tile.
    Motif,
    /// A closed mark shape.
    Shape,
}

/// Whether a motif's terminal handles share one seam direction.
#[derive(Clone, Copy, Debug, PartialEq, Eq, Structural)]
pub enum MotifTerminalDirection {
    Smooth,
    Corner,
}

/// Whether a path closes on itself.
#[derive(Clone, Copy, Debug, PartialEq, Eq, Structural)]
pub enum PathClosure {
    Open,
    Closed,
}

/// The path a completed construction becomes.
#[derive(Clone, Copy, Debug, PartialEq, Eq, Structural)]
pub enum CompletionShape {
    /// The canonical straight cubic across the unit motif tile.
    MotifUnitCubic,
    /// A polyline through the construction points; a guide's first and last
    /// points are first pinned to the frame's edges.
    Polyline { closure: PathClosure, pin_guide_endpoints: bool },
}

/// Which fixed terminal handle of a motif is chosen.
#[derive(Clone, Copy, Debug, PartialEq, Eq, Structural)]
pub enum MotifTerminalHandle {
    Left,
    Right,
}

/// The kind of one path segment.
#[derive(Clone, Copy, Debug, PartialEq, Eq, Structural)]
pub enum SegmentKind {
    Line,
    Cubic,
}

/// One explicit edit of the selected segment or anchor; an insertion's
/// position within its segment stays with the caller.
#[derive(Clone, Copy, Debug, PartialEq, Eq, Structural)]
pub enum PathEditKind {
    MakeCurve,
    MakeLine,
    InsertNode,
    DeleteNode { node: usize },
}

/// What an explicit edit does to the path.
#[derive(Clone, Copy, Debug, PartialEq, Eq, Structural)]
pub enum PathEditPlan {
    /// The segment already has the requested kind.
    Unchanged,
    /// Toggle the kind of this segment.
    ToggleSegment(usize),
    /// Split this segment.
    InsertIn(usize),
    /// Remove this anchor, within the path's own bounds.
    Delete(usize),
}

/// Why an edit has no selection to act on or is refused.
#[derive(Clone, Copy, Debug, PartialEq, Eq, Structural)]
pub enum PathEditError {
    /// A segment action was requested while no segment is selected.
    NoSegmentSelection,
    /// A motif keeps its tile terminal anchors fixed.
    EndpointLocked,
}

/// How the active mode constrains a moved point.
#[derive(Clone, Copy, Debug, PartialEq, Eq, Structural)]
pub enum PointPolicy {
    /// The point moves freely.
    Free,
    /// A guide's first anchor stays on the frame's left edge.
    PinToFrameStart,
    /// A guide's last anchor stays on the frame's right edge.
    PinToFrameEnd,
    /// A motif's terminal anchor does not move.
    Locked,
}

/// The discrete editor state around one private path-editing session.
#[derive(Clone, Debug)]
pub struct PathEditorState {
    /// The explicitly selected authored structure.
    pub selected_structure: Option<AuthoredStructureId>,
    /// The selected anchor.
    pub selected_node: Option<usize>,
    /// The selected segment.
    pub selected_segment: Option<usize>,
    /// The selected numeric target.
    pub selected_target: Option<NumericTarget>,
    /// The editor's local input is invalid.
    pub local_invalid: bool,
    /// The kind of the construction in progress, if any.
    pub construction: Option<AuthoredStructureKind>,
    /// The structures that already received an explicit shared-edit choice.
    pub shared_armed: Vec<AuthoredStructureId>,
    /// The configured editing mode, if any.
    pub mode: Option<AuthoredPathEditorMode>,
    /// The local, never persisted, motif terminal-direction choice.
    pub motif_terminal_direction: Option<MotifTerminalDirection>,
}

impl PathEditorState {
    /// The kind of the construction in progress, if any.
    pub open spec fn constructing(&self) -> Option<AuthoredStructureKind> {
        self.construction
    }

    /// The structures that already received an explicit shared-edit choice.
    pub open spec fn armed(&self) -> Set<AuthoredStructureId> {
        self.shared_armed@.to_set()
    }

    /// Creates a neutral state with no selection or construction.
    pub fn new() -> (state: Self)
        ensures
            state.selected_structure is None,
            state.selected_node is None,
            state.selected_segment is None,
            state.selected_target is None,
            !state.local_invalid,
            state.constructing() is None,
            state.armed() == Set::<AuthoredStructureId>::empty(),
            state.mode is None,
            state.motif_terminal_direction is None,
    {
        let state = PathEditorState {
            selected_structure: None,
            selected_node: None,
            selected_segment: None,
            selected_target: None,
            local_invalid: false,
            construction: None,
            shared_armed: Vec::new(),
            mode: None,
            motif_terminal_direction: None,
        };
        assert(state.shared_armed@.to_set() =~= Set::<AuthoredStructureId>::empty());
        state
    }

    /// Starts local construction without publishing a draft command; a
    /// motif's open path starts smooth.
    pub fn begin(&mut self, kind: AuthoredStructureKind)
        ensures
            final(self).constructing() == Some(kind),
            !final(self).local_invalid,
            final(self).armed() == old(self).armed(),
            final(self).selected_structure == old(self).selected_structure,
            final(self).selected_node == old(self).selected_node,
            final(self).selected_segment == old(self).selected_segment,
            final(self).selected_target == old(self).selected_target,
            final(self).mode == old(self).mode,
            final(self).motif_terminal_direction == (if old(self).mode == Some(
                AuthoredPathEditorMode::Motif,
            ) && kind == AuthoredStructureKind::OpenPath {
                Some(MotifTerminalDirection::Smooth)
            } else {
                old(self).motif_terminal_direction
            }),
    {
        self.local_invalid = false;
        if self.mode == Some(AuthoredPathEditorMode::Motif) && kind == AuthoredStructureKind::OpenPath {
            self.motif_terminal_direction = Some(MotifTerminalDirection::Smooth);
        }
        self.construction = Some(kind);
    }

    /// Reports whether construction of `kind` starts from the two ends of
    /// the unit motif tile rather than from no points.
    pub fn starts_with_unit_tile(&self, kind: AuthoredStructureKind) -> (seeded: bool)
        ensures
            seeded == (self.mode == Some(AuthoredPathEditorMode::Motif) && kind
                == AuthoredStructureKind::OpenPath),
    {
        self.mode == Some(AuthoredPathEditorMode::Motif) && kind == AuthoredStructureKind::OpenPath
    }

    /// The position at which the next construction point goes, given the
    /// points so far: a motif's open path keeps its tile end last.
    pub fn insertion_index(&self, point_count: usize) -> (index: usize)
        ensures
            index == (if self.mode == Some(AuthoredPathEditorMode::Motif) && self.constructing()
                == Some(AuthoredStructureKind::OpenPath) && point_count >= 2 {
                point_count - 1
            } else {
                point_count as int
            }),
    {
        if self.mode == Some(AuthoredPathEditorMode::Motif) && self.construction == Some(
            AuthoredStructureKind::OpenPath,
        ) && point_count >= 2 {
            point_count - 1
        } else {
            point_count
        }
    }

    /// The path a construction with `point_count` points completes to; none
    /// without a construction or with fewer than two points.
    pub fn completion(&self, point_count: usize) -> (shape: Option<CompletionShape>)
        ensures
            shape == match self.constructing() {
                None => None,
                Some(kind) => if point_count < 2 {
                    None
                } else if self.mode == Some(AuthoredPathEditorMode::Motif) && kind
                    == AuthoredStructureKind::OpenPath && point_count == 2 {
                    Some(CompletionShape::MotifUnitCubic)
                } else {
                    Some(
                        CompletionShape::Polyline {
                            closure: if kind == AuthoredStructureKind::OpenPath {
                                PathClosure::Open
                            } else {
                                PathClosure::Closed
                            },
                            pin_guide_endpoints: self.mode == Some(AuthoredPathEditorMode::Guide)
                                && kind == AuthoredStructureKind::OpenPath,
                        },
                    )
                },
            },
    {
        let kind = match self.construction {
            Some(kind) => kind,
            None => return None,
        };
        if point_count < 2 {
            return None;
        }
        let open = kind == AuthoredStructureKind::OpenPath;
        if self.mode == Some(AuthoredPathEditorMode::Motif) && open && point_count == 2 {
            return Some(CompletionShape::MotifUnitCubic);
        }
        Some(
            CompletionShape::Polyline {
                closure: if open {
                    PathClosure::Open
                } else {
                    PathClosure::Closed
                },
                pin_guide_endpoints: self.mode == Some(AuthoredPathEditorMode::Guide) && open,
            },
        )
    }

    /// Configures the editing mode for one modal open and forgets any local
    /// terminal-direction choice.
    pub fn configure_mode(&mut self, mode: AuthoredPathEditorMode)
        ensures
            final(self).mode == Some(mode),
            final(self).motif_terminal_direction is None,
            final(self).constructing() == old(self).constructing(),
            final(self).armed() == old(self).armed(),
            final(self).selected_structure == old(self).selected_structure,
    {
        self.mode = Some(mode);
        self.motif_terminal_direction = None;
    }

    /// Records the direction inferred from an opened motif as its local
    /// presentation, once; an explicit choice survives later inspections.
    pub fn inspect_motif_terminal_direction(&mut self, inferred: MotifTerminalDirection)
        ensures
            final(self).motif_terminal_direction == (if old(self).mode == Some(
                AuthoredPathEditorMode::Motif,
            ) && old(self).motif_terminal_direction is None {
                Some(inferred)
            } else {
                old(self).motif_terminal_direction
            }),
            final(self).mode == old(self).mode,
            final(self).constructing() == old(self).constructing(),
            final(self).armed() == old(self).armed(),
    {
        if self.mode == Some(AuthoredPathEditorMode::Motif) && self.motif_terminal_direction.is_none() {
            self.motif_terminal_direction = Some(inferred);
        }
    }

    /// The effective motif terminal direction: the local choice, else the one
    /// inferred from the path.
    pub fn effective_motif_terminal_direction(&self, inferred: MotifTerminalDirection) -> (direction:
        MotifTerminalDirection)
        ensures
            direction == match self.motif_terminal_direction {
                Some(d) => d,
                None => inferred,
            },
    {
        match self.motif_terminal_direction {
            Some(d) => d,
            None => inferred,
        }
    }

    /// Chooses the next-edit terminal direction; only a motif has one.
    pub fn set_motif_terminal_direction(&mut self, direction: MotifTerminalDirection)
        ensures
            final(self).motif_terminal_direction == (if old(self).mode == Some(
                AuthoredPathEditorMode::Motif,
            ) {
                Some(direction)
            } else {
                old(self).motif_terminal_direction
            }),
            final(self).mode == old(self).mode,
            final(self).constructing() == old(self).constructing(),
            final(self).armed() == old(self).armed(),
    {
        if self.mode == Some(AuthoredPathEditorMode::Motif) {
            self.motif_terminal_direction = Some(direction);
        }
    }

    /// Reports whether the selected motif exposes both terminal handles: an
    /// open path whose first and last segments are cubic.
    pub fn motif_terminal_controls_editable(
        &self,
        closure: PathClosure,
        first_is_cubic: bool,
        last_is_cubic: bool,
    ) -> (editable: bool)
        ensures
            editable == (self.mode == Some(AuthoredPathEditorMode::Motif) && closure
                == PathClosure::Open && first_is_cubic && last_is_cubic),
    {
        self.mode == Some(AuthoredPathEditorMode::Motif) && closure == PathClosure::Open
            && first_is_cubic && last_is_cubic
    }

    /// Selects what a canvas click hit: an anchor first, then a control
    /// handle (with its segment), then the nearest segment, else nothing.
    pub fn select_hit(
        &mut self,
        anchor: Option<usize>,
        control: Option<NumericTarget>,
        segment: Option<usize>,
    )
        ensures
            !final(self).local_invalid,
            match anchor {
                Some(n) => final(self).selected_node == Some(n) && final(self).selected_segment is None
                    && final(self).selected_target == Some(NumericTarget::Anchor(n)),
                None => match control {
                    Some(t) => final(self).selected_node is None && final(self).selected_segment
                        == match t {
                        NumericTarget::Control1(i) => Some(i),
                        NumericTarget::Control2(i) => Some(i),
                        NumericTarget::Anchor(_) => None,
                    } && final(self).selected_target == Some(t),
                    None => final(self).selected_node is None && final(self).selected_segment
                        == segment && final(self).selected_target is None,
                },
            },
            final(self).selected_structure == old(self).selected_structure,
            final(self).constructing() == old(self).constructing(),
            final(self).armed() == old(self).armed(),
            final(self).mode == old(self).mode,
            final(self).motif_terminal_direction == old(self).motif_terminal_direction,
    {
        self.local_invalid = false;
        if let Some(n) = anchor {
            self.selected_node = Some(n);
            self.selected_segment = None;
            self.selected_target = Some(NumericTarget::Anchor(n));
            return;
        }
        if let Some(t) = control {
            self.selected_node = None;
            self.selected_segment = match t {
                NumericTarget::Control1(i) | NumericTarget::Control2(i) => Some(i),
                NumericTarget::Anchor(_) => None,
            };
            self.selected_target = Some(t);
            return;
        }
        self.selected_node = None;
        self.selected_segment = segment;
        self.selected_target = None;
    }

    /// Cancels incomplete local construction without affecting document
    /// history.
    pub fn cancel(&mut self)
        ensures
            final(self).constructing() is None,
            !final(self).local_invalid,
            final(self).armed() == old(self).armed(),
            final(self).selected_structure == old(self).selected_structure,
    {
        self.construction = None;
        self.local_invalid = false;
    }

    /// Ends construction once its completed path was attached.
    pub fn finish_construction(&mut self)
        ensures
            final(self).constructing() is None,
            final(self).local_invalid == old(self).local_invalid,
            final(self).armed() == old(self).armed(),
    {
        self.construction = None;
    }

    /// Reports whether incomplete construction blocks Apply.
    pub fn incomplete(&self) -> (incomplete: bool)
        ensures
            incomplete == self.constructing() is Some,
    {
        self.construction.is_some()
    }

    /// Returns the kind of the construction in progress.
    pub fn construction_kind(&self) -> (kind: Option<AuthoredStructureKind>)
        ensures
            kind == self.constructing(),
    {
        self.construction
    }

    /// Sets local editor validity without mutating document history.
    pub fn set_local_invalid(&mut self, value: bool)
        ensures
            final(self).local_invalid == value,
            final(self).constructing() == old(self).constructing(),
            final(self).armed() == old(self).armed(),
    {
        self.local_invalid = value;
    }

    /// Apply may publish a dirty draft only with no construction in progress
    /// and valid local input.
    pub open spec fn apply_ready_spec(&self, dirty: bool) -> bool {
        dirty && self.constructing() is None && !self.local_invalid
    }

    /// Reports whether Apply may publish the draft under local editor gates.
    pub fn apply_ready(&self, dirty: bool) -> (ready: bool)
        ensures
            ready == self.apply_ready_spec(dirty),
    {
        dirty && !self.incomplete() && !self.local_invalid
    }

    /// Reports whether this draft already received a shared-resource choice
    /// for one original ID.
    pub fn is_shared_armed(&self, structure_id: AuthoredStructureId) -> (armed: bool)
        ensures
            armed == self.armed().contains(structure_id),
    {
        let mut i: usize = 0;
        while i < self.shared_armed.len()
            invariant
                0 <= i <= self.shared_armed@.len(),
                forall|j: int| 0 <= j < i ==> self.shared_armed@[j] != structure_id,
            decreases self.shared_armed@.len() - i,
        {
            if self.shared_armed[i] == structure_id {
                assert(self.shared_armed@.contains(structure_id));
                return true;
            }
            i = i + 1;
        }
        false
    }

    /// Records the chosen shared-resource policy for this private draft only.
    pub fn arm_shared_resource(&mut self, structure_id: AuthoredStructureId)
        ensures
            final(self).armed() == old(self).armed().insert(structure_id),
            final(self).constructing() == old(self).constructing(),
            final(self).local_invalid == old(self).local_invalid,
            final(self).selected_structure == old(self).selected_structure,
    {
        if self.is_shared_armed(structure_id) {
            assert(self.shared_armed@.to_set() =~= self.shared_armed@.to_set().insert(
                structure_id,
            ));
            return;
        }
        let ghost before = self.shared_armed@;
        self.shared_armed.push(structure_id);
        proof {
            assert(self.shared_armed@.to_set() =~= before.to_set().insert(structure_id)) by {
                assert forall|x: AuthoredStructureId|
                    self.shared_armed@.to_set().contains(x) <==> before.to_set().insert(
                        structure_id,
                    ).contains(x) by {
                    if x == structure_id {
                        assert(self.shared_armed@[before.len() as int] == x);
                    } else if before.contains(x) {
                        let k = choose|k: int| 0 <= k < before.len() && before[k] == x;
                        assert(self.shared_armed@[k] == x);
                    } else if self.shared_armed@.contains(x) {
                        let k = choose|k: int|
                            0 <= k < self.shared_armed@.len() && self.shared_armed@[k] == x;
                        assert(before[k] == x);
                    }
                }
            }
        }
    }

    /// Selects one explicit authored resource and clears only local point and
    /// validation presentation state.
    pub fn select_structure(&mut self, structure_id: AuthoredStructureId)
        ensures
            final(self).selected_structure == Some(structure_id),
            final(self).selected_node is None,
            final(self).selected_segment is None,
            final(self).selected_target is None,
            !final(self).local_invalid,
            final(self).constructing() == old(self).constructing(),
            final(self).armed() == old(self).armed(),
    {
        self.selected_structure = Some(structure_id);
        self.selected_node = None;
        self.selected_segment = None;
        self.selected_target = None;
        self.local_invalid = false;
    }

    /// Clears the current resource selection without changing construction
    /// or history, so no operation can target a hidden structure.
    pub fn clear_structure_selection(&mut self)
        ensures
            final(self).selected_structure is None,
            final(self).selected_node is None,
            final(self).selected_segment is None,
            final(self).selected_target is None,
            !final(self).local_invalid,
            final(self).constructing() == old(self).constructing(),
            final(self).armed() == old(self).armed(),
    {
        self.selected_structure = None;
        self.selected_node = None;
        self.selected_segment = None;
        self.selected_target = None;
        self.local_invalid = false;
    }

    /// Routes one replacement of the path `structure_id`, whose uses are by
    /// the channels `use_channels` in document order, while `selected` is
    /// the editor's channel and `pending` tells whether an earlier shared
    /// choice is still open.
    pub fn replacement_route(
        &self,
        structure_id: AuthoredStructureId,
        pending: bool,
        use_channels: &[ChannelId],
        selected: ChannelId,
    ) -> (route: PathReplacementRoute)
        ensures
            route == route_for(self.armed(), structure_id, pending, use_channels@, selected),
    {
        if pending {
            return PathReplacementRoute::Blocked;
        }
        if use_channels.len() <= 1 || self.is_shared_armed(structure_id) {
            return PathReplacementRoute::Apply;
        }
        let mut i: usize = 0;
        while i < use_channels.len()
            invariant
                !pending,
                use_channels@.len() > 1,
                !self.armed().contains(structure_id),
                0 <= i <= use_channels@.len(),
                forall|j: int| 0 <= j < i ==> use_channels@[j] != selected,
            decreases use_channels@.len() - i,
        {
            if use_channels[i] == selected {
                proof {
                    assert(is_first_use(use_channels@, selected, i as int));
                    let k = choose|k: int| is_first_use(use_channels@, selected, k);
                    assert(is_first_use(use_channels@, selected, k));
                    if k < i {
                        assert(use_channels@[k] != selected);
                    } else if k > i {
                        assert(use_channels@[i as int] != selected);
                    }
                }
                return PathReplacementRoute::Disclose { active: i };
            }
            i = i + 1;
        }
        proof {
            if exists|k: int| is_first_use(use_channels@, selected, k) {
                let k = choose|k: int| is_first_use(use_channels@, selected, k);
                assert(use_channels@[k] == selected);
            }
        }
        PathReplacementRoute::Disclose { active: 0 }
    }

    /// Settles a disclosed shared-resource choice for the path
    /// `original_id`: editing all uses arms the path whatever the edit came
    /// to, a copy selects the new resource and arms the path, and a failed
    /// copy changes nothing. Returns whether the draft changed.
    pub fn settle_shared_choice(
        &mut self,
        original_id: AuthoredStructureId,
        result: SharedEditResult,
    ) -> (changed: bool)
        ensures
            changed == match result {
                SharedEditResult::EditedAll { applied } => applied,
                SharedEditResult::Copied(copy) => copy is Some,
            },
            final(self).armed() == (if result == SharedEditResult::Copied(None) {
                old(self).armed()
            } else {
                old(self).armed().insert(original_id)
            }),
            final(self).selected_structure == match result {
                SharedEditResult::Copied(Some(copy)) => Some(copy),
                _ => old(self).selected_structure,
            },
            final(self).constructing() == old(self).constructing(),
    {
        match result {
            SharedEditResult::EditedAll { applied } => {
                self.arm_shared_resource(original_id);
                applied
            },
            SharedEditResult::Copied(Some(copy)) => {
                self.select_structure(copy);
                self.arm_shared_resource(original_id);
                true
            },
            SharedEditResult::Copied(None) => false,
        }
    }

    /// Plans one explicit edit against the selected segment, given the kinds
    /// of the path's segments in order.
    pub fn plan_edit(&self, closure: PathClosure, segment_kinds: &[SegmentKind], edit: PathEditKind) -> (plan:
        Result<PathEditPlan, PathEditError>)
        ensures
            plan == match edit {
                PathEditKind::MakeCurve => match self.selected_segment {
                    None => Err(PathEditError::NoSegmentSelection),
                    Some(i) => if i < segment_kinds@.len() && segment_kinds@[i as int]
                        == SegmentKind::Cubic {
                        Ok(PathEditPlan::Unchanged)
                    } else {
                        Ok(PathEditPlan::ToggleSegment(i))
                    },
                },
                PathEditKind::MakeLine => match self.selected_segment {
                    None => Err(PathEditError::NoSegmentSelection),
                    Some(i) => if i < segment_kinds@.len() && segment_kinds@[i as int]
                        == SegmentKind::Line {
                        Ok(PathEditPlan::Unchanged)
                    } else {
                        Ok(PathEditPlan::ToggleSegment(i))
                    },
                },
                PathEditKind::InsertNode => match self.selected_segment {
                    None => Err(PathEditError::NoSegmentSelection),
                    Some(i) => Ok(PathEditPlan::InsertIn(i)),
                },
                PathEditKind::DeleteNode { node } => if self.mode == Some(
                    AuthoredPathEditorMode::Motif,
                ) && closure == PathClosure::Open && (node == 0 || node == segment_kinds@.len()) {
                    Err(PathEditError::EndpointLocked)
                } else {
                    Ok(PathEditPlan::Delete(node))
                },
            },
    {
        match edit {
            PathEditKind::MakeCurve | PathEditKind::MakeLine => {
                let i = match self.selected_segment {
                    Some(i) => i,
                    None => return Err(PathEditError::NoSegmentSelection),
                };
                let wanted = match edit {
                    PathEditKind::MakeCurve => SegmentKind::Cubic,
                    _ => SegmentKind::Line,
                };
                if i < segment_kinds.len() && segment_kinds[i] == wanted {
                    Ok(PathEditPlan::Unchanged)
                } else {
                    Ok(PathEditPlan::ToggleSegment(i))
                }
            },
            PathEditKind::InsertNode => match self.selected_segment {
                Some(i) => Ok(PathEditPlan::InsertIn(i)),
                None => Err(PathEditError::NoSegmentSelection),
            },
            PathEditKind::DeleteNode { node } => {
                if self.mode == Some(AuthoredPathEditorMode::Motif) && closure == PathClosure::Open
                    && (node == 0 || node == segment_kinds.len()) {
                    Err(PathEditError::EndpointLocked)
                } else {
                    Ok(PathEditPlan::Delete(node))
                }
            },
        }
    }

    /// Selects a fixed motif terminal handle: the first segment's first
    /// control on the left, the last segment's second control on the right.
    /// Returns whether that segment is a line the caller must explicitly
    /// convert; only an open motif with segments has terminal handles.
    pub fn select_motif_terminal_handle(
        &mut self,
        closure: PathClosure,
        segment_kinds: &[SegmentKind],
        handle: MotifTerminalHandle,
    ) -> (convert: Result<bool, PathEditError>)
        ensures
            ({
                let n = segment_kinds@.len();
                if old(self).mode != Some(AuthoredPathEditorMode::Motif) || closure
                    != PathClosure::Open || n == 0 {
                    convert == Err::<bool, PathEditError>(PathEditError::NoSegmentSelection)
                        && *final(self) == *old(self)
                } else {
                    let segment: int = match handle {
                        MotifTerminalHandle::Left => 0,
                        MotifTerminalHandle::Right => n - 1,
                    };
                    &&& convert == Ok::<bool, PathEditError>(
                        segment_kinds@[segment] == SegmentKind::Line,
                    )
                    &&& final(self).selected_node is None
                    &&& final(self).selected_segment == Some(segment as usize)
                    &&& final(self).selected_target == Some(
                        match handle {
                            MotifTerminalHandle::Left => NumericTarget::Control1(0),
                            MotifTerminalHandle::Right => NumericTarget::Control2(segment as usize),
                        },
                    )
                    &&& final(self).selected_structure == old(self).selected_structure
                    &&& final(self).mode == old(self).mode
                    &&& final(self).constructing() == old(self).constructing()
                }
            }),
    {
        let n = segment_kinds.len();
        if self.mode != Some(AuthoredPathEditorMode::Motif) || closure != PathClosure::Open || n == 0 {
            return Err(PathEditError::NoSegmentSelection);
        }
        let last = n - 1;
        let (segment, target) = match handle {
            MotifTerminalHandle::Left => (0, NumericTarget::Control1(0)),
            MotifTerminalHandle::Right => (last, NumericTarget::Control2(last)),
        };
        self.selected_node = None;
        self.selected_segment = Some(segment);
        self.selected_target = Some(target);
        Ok(segment_kinds[segment] == SegmentKind::Line)
    }

    /// How the active mode constrains moving `target` on a path with
    /// `segment_count` segments.
    pub fn point_policy(&self, closure: PathClosure, segment_count: usize, target: NumericTarget) -> (policy:
        PointPolicy)
        ensures
            policy == match target {
                NumericTarget::Anchor(i) => {
                    let first = i == 0;
                    let last = closure == PathClosure::Open && i == segment_count;
                    match self.mode {
                        Some(AuthoredPathEditorMode::Guide) => if first {
                            PointPolicy::PinToFrameStart
                        } else if last {
                            PointPolicy::PinToFrameEnd
                        } else {
                            PointPolicy::Free
                        },
                        Some(AuthoredPathEditorMode::Motif) => if first || last {
                            PointPolicy::Locked
                        } else {
                            PointPolicy::Free
                        },
                        _ => PointPolicy::Free,
                    }
                },
                _ => PointPolicy::Free,
            },
    {
        let i = match target {
            NumericTarget::Anchor(i) => i,
            _ => return PointPolicy::Free,
        };
        let first = i == 0;
        let last = closure == PathClosure::Open && i == segment_count;
        match self.mode {
            Some(AuthoredPathEditorMode::Guide) => if first {
                PointPolicy::PinToFrameStart
            } else if last {
                PointPolicy::PinToFrameEnd
            } else {
                PointPolicy::Free
            },
            Some(AuthoredPathEditorMode::Motif) => if first || last {
                PointPolicy::Locked
            } else {
                PointPolicy::Free
            },
            _ => PointPolicy::Free,
        }
    }

    /// The opposite terminal handle that a smooth motif moves along with
    /// `target`, if any; `inferred` is the direction read from the path.
    pub fn linked_handle(
        &self,
        segment_count: usize,
        first_is_cubic: bool,
        last_is_cubic: bool,
        inferred: MotifTerminalDirection,
        target: NumericTarget,
    ) -> (linked: Option<NumericTarget>)
        ensures
            linked == (if self.mode != Some(AuthoredPathEditorMode::Motif) || match self.motif_terminal_direction {
                Some(d) => d,
                None => inferred,
            } != MotifTerminalDirection::Smooth {
                None
            } else {
                let last: int = if segment_count > 0 {
                    segment_count - 1
                } else {
                    0
                };
                match target {
                    NumericTarget::Control1(0) => if (last > 0 || first_is_cubic) && last_is_cubic {
                        Some(NumericTarget::Control2(last as usize))
                    } else {
                        None
                    },
                    NumericTarget::Control2(i) => if i == last && first_is_cubic {
                        Some(NumericTarget::Control1(0))
                    } else {
                        None
                    },
                    _ => None,
                }
            }),
    {
        if self.mode != Some(AuthoredPathEditorMode::Motif) || self.effective_motif_terminal_direction(
            inferred,
        ) != MotifTerminalDirection::Smooth {
            return None;
        }
        let last: usize = if segment_count > 0 {
            segment_count - 1
        } else {
            0
        };
        match target {
            NumericTarget::Control1(0) => if (last > 0 || first_is_cubic) && last_is_cubic {
                Some(NumericTarget::Control2(last))
            } else {
                None
            },
            NumericTarget::Control2(i) => if i == last && first_is_cubic {
                Some(NumericTarget::Control1(0))
            } else {
                None
            },
            _ => None,
        }
    }

    /// Reports whether one primary-pointer sequence may become an editable
    /// target drag: construction owns primary clicks, and a sequence without
    /// a target stays available to click handling.
    pub fn may_claim_target_drag(&self, target: Option<NumericTarget>) -> (claim: bool)
        ensures
            claim == (self.constructing() is None && target is Some),
    {
        !self.incomplete() && target.is_some()
    }
}

impl Default for PathEditorState {
    /// A neutral state with no selection or construction.
    fn default() -> (state: Self)
        ensures
            state.selected_structure is None,
            state.selected_node is None,
            state.selected_segment is None,
            state.selected_target is None,
            !state.local_invalid,
            state.constructing() is None,
            state.armed() == Set::<AuthoredStructureId>::empty(),
            state.mode is None,
            state.motif_terminal_direction is None,
    {
        PathEditorState::new()
    }
}

/// Apply never publishes while construction is in progress or local input
/// is invalid, and an explicit resource selection always clears local
/// invalidity without starting or ending construction.
pub proof fn lemma_apply_gate(state: PathEditorState, dirty: bool)
    ensures
        state.constructing() is Some ==> !state.apply_ready_spec(dirty),
        state.local_invalid ==> !state.apply_ready_spec(dirty),
        !dirty ==> !state.apply_ready_spec(dirty),
{
}

/// A shared path is asked about once per draft: once its edit policy is
/// recorded (which `settle_shared_choice` does for every result but a failed
/// copy), later replacements of it apply directly, whatever its uses.
pub proof fn lemma_shared_choice_is_asked_once(
    armed: Set<AuthoredStructureId>,
    original_id: AuthoredStructureId,
    use_channels: Seq<ChannelId>,
    selected: ChannelId,
)
    ensures
        route_for(armed.insert(original_id), original_id, false, use_channels, selected)
            == PathReplacementRoute::Apply,
{
}

/// Some position of `use_channels` holds `channel` only if a first such
/// position does.
proof fn lemma_first_use_exists(use_channels: Seq<ChannelId>, channel: ChannelId, k: int)
    requires
        0 <= k < use_channels.len(),
        use_channels[k] == channel,
    ensures
        exists|i: int| is_first_use(use_channels, channel, i),
    decreases k,
{
    if exists|j: int| 0 <= j < k && use_channels[j] == channel {
        let j = choose|j: int| 0 <= j < k && use_channels[j] == channel;
        lemma_first_use_exists(use_channels, channel, j);
    } else {
        assert(is_first_use(use_channels, channel, k));
    }
}

/// A replacement waits while another shared-resource choice is pending.
/// Otherwise a path with two or more uses and no recorded edit policy is
/// disclosed before it is edited, naming the selected channel's first use
/// as the one this editor changes (the first use when the selected channel
/// has none); any other path is replaced directly.
pub proof fn lemma_replacement_routes(
    armed: Set<AuthoredStructureId>,
    structure_id: AuthoredStructureId,
    pending: bool,
    use_channels: Seq<ChannelId>,
    selected: ChannelId,
)
    requires
        use_channels.len() <= usize::MAX,
    ensures
        pending ==> route_for(armed, structure_id, pending, use_channels, selected)
            == PathReplacementRoute::Blocked,
        !pending && use_channels.len() >= 2 && !armed.contains(structure_id) ==> {
            &&& route_for(armed, structure_id, pending, use_channels, selected) matches
                PathReplacementRoute::Disclose { active }
            &&& {
                let active = route_for(armed, structure_id, pending, use_channels, selected)->active;
                &&& active < use_channels.len()
                &&& use_channels.contains(selected) ==> use_channels[active as int] == selected
                    && forall|j: int| 0 <= j < active ==> use_channels[j] != selected
                &&& !use_channels.contains(selected) ==> active == 0
            }
        },
        !pending && (use_channels.len() <= 1 || armed.contains(structure_id)) ==> route_for(
            armed,
            structure_id,
            pending,
            use_channels,
            selected,
        ) == PathReplacementRoute::Apply,
{
    if use_channels.contains(selected) {
        let k = choose|k: int| 0 <= k < use_channels.len() && use_channels[k] == selected;
        lemma_first_use_exists(use_channels, selected, k);
    } else {
        assert(!exists|i: int| is_first_use(use_channels, selected, i));
    }
}

} // verus!
