use toniator_app::channels::ChannelId;
use toniator_app::path_editor::{
    AuthoredPathEditorMode, AuthoredStructureId, CompletionShape, MotifTerminalDirection,
    MotifTerminalHandle, NudgeStep, NumericTarget, PathClosure, PathEditError, PathEditKind,
    PathEditPlan, PathEditorState, PathReplacementRoute, PointPolicy, SegmentKind,
    SharedEditResult, nudge_step,
};
use toniator_app::presentation::AuthoredStructureKind;

#[test]
fn apply_gate_requires_dirty_complete_and_valid_editor_state() {
    let mut state = PathEditorState::default();
    assert!(!state.apply_ready(false));
    assert!(state.apply_ready(true));
    state.set_local_invalid(true);
    assert!(!state.apply_ready(true));
}

#[test]
fn nudge_steps_use_control_precision_and_shift_coarse_units() {
    assert_eq!(nudge_step(false, false), NudgeStep::Unit);
    assert_eq!(nudge_step(true, false), NudgeStep::Coarse);
    assert_eq!(nudge_step(true, true), NudgeStep::Precise);
}

#[test]
fn shared_resource_gate_arms_only_after_an_explicit_choice() {
    let mut state = PathEditorState::default();
    let resource = AuthoredStructureId(42);
    assert!(!state.is_shared_armed(resource));
    state.arm_shared_resource(resource);
    assert!(state.is_shared_armed(resource));
    state.arm_shared_resource(resource);
    assert_eq!(state.shared_armed.len(), 1);
    assert!(!state.is_shared_armed(AuthoredStructureId(43)));
}

#[test]
fn construction_prevents_drag_gesture_claiming() {
    let mut state = PathEditorState::default();
    assert!(!state.may_claim_target_drag(None));
    assert!(state.may_claim_target_drag(Some(NumericTarget::Anchor(0))));
    state.begin(AuthoredStructureKind::ClosedShape);
    assert!(!state.may_claim_target_drag(Some(NumericTarget::Anchor(0))));
    assert!(!state.apply_ready(true));
    state.cancel();
    assert!(!state.incomplete());
    assert!(state.may_claim_target_drag(Some(NumericTarget::Control1(2))));
}

#[test]
fn explicit_resource_selection_does_not_fall_back_to_the_first_resource() {
    let mut state = PathEditorState {
        selected_structure: Some(AuthoredStructureId(1)),
        selected_node: Some(0),
        local_invalid: true,
        ..Default::default()
    };
    state.select_structure(AuthoredStructureId(9));
    assert_eq!(state.selected_structure, Some(AuthoredStructureId(9)));
    assert_eq!(state.selected_node, None);
    assert!(!state.local_invalid);
    state.clear_structure_selection();
    assert_eq!(state.selected_structure, None);
}

#[test]
fn shared_paths_are_disclosed_once_naming_the_selected_use() {
    let mut state = PathEditorState::new();
    let path = AuthoredStructureId(3);
    let uses = [ChannelId(1), ChannelId(2), ChannelId(2)];
    assert_eq!(state.replacement_route(path, true, &uses, ChannelId(2)), PathReplacementRoute::Blocked);
    assert_eq!(
        state.replacement_route(path, false, &uses, ChannelId(2)),
        PathReplacementRoute::Disclose { active: 1 }
    );
    assert_eq!(
        state.replacement_route(path, false, &uses, ChannelId(9)),
        PathReplacementRoute::Disclose { active: 0 }
    );
    assert_eq!(state.replacement_route(path, false, &uses[..1], ChannelId(1)), PathReplacementRoute::Apply);
    assert!(!state.settle_shared_choice(path, SharedEditResult::Copied(None)));
    assert!(!state.is_shared_armed(path));
    assert!(state.settle_shared_choice(path, SharedEditResult::Copied(Some(AuthoredStructureId(8)))));
    assert_eq!(state.selected_structure, Some(AuthoredStructureId(8)));
    assert!(state.is_shared_armed(path));
    assert_eq!(state.replacement_route(path, false, &uses, ChannelId(2)), PathReplacementRoute::Apply);
}

#[test]
fn editing_all_uses_arms_the_path_even_when_the_edit_fails() {
    let mut state = PathEditorState::new();
    let path = AuthoredStructureId(4);
    assert!(!state.settle_shared_choice(path, SharedEditResult::EditedAll { applied: false }));
    assert!(state.is_shared_armed(path));
    assert_eq!(state.selected_structure, None);
    assert!(state.settle_shared_choice(path, SharedEditResult::EditedAll { applied: true }));
}

#[test]
fn selection_prefers_anchor_then_segment() {
    let mut state = PathEditorState::default();
    state.select_hit(Some(0), None, Some(0));
    assert_eq!(state.selected_node, Some(0));
    assert_eq!(state.selected_segment, None);
    assert_eq!(state.selected_target, Some(NumericTarget::Anchor(0)));
    state.select_hit(None, None, Some(0));
    assert_eq!(state.selected_node, None);
    assert_eq!(state.selected_segment, Some(0));
    assert_eq!(state.selected_target, None);
    state.select_hit(None, Some(NumericTarget::Control2(3)), Some(1));
    assert_eq!(state.selected_segment, Some(3));
    assert_eq!(state.selected_target, Some(NumericTarget::Control2(3)));
    state.set_local_invalid(true);
    state.select_hit(None, None, None);
    assert_eq!(state.selected_segment, None);
    assert!(!state.local_invalid);
}

#[test]
fn motif_terminal_actions_select_controls_or_explicitly_convert_the_terminal_line() {
    let mut state = PathEditorState::default();
    state.configure_mode(AuthoredPathEditorMode::Motif);
    let cubic = [SegmentKind::Cubic];
    assert_eq!(state.select_motif_terminal_handle(PathClosure::Open, &cubic, MotifTerminalHandle::Left), Ok(false));
    assert_eq!(state.selected_target, Some(NumericTarget::Control1(0)));
    assert_eq!(state.select_motif_terminal_handle(PathClosure::Open, &cubic, MotifTerminalHandle::Right), Ok(false));
    assert_eq!(state.selected_target, Some(NumericTarget::Control2(0)));
    let line = [SegmentKind::Line];
    assert_eq!(state.select_motif_terminal_handle(PathClosure::Open, &line, MotifTerminalHandle::Left), Ok(true));
    assert_eq!(state.selected_target, Some(NumericTarget::Control1(0)));
    let two = [SegmentKind::Line, SegmentKind::Cubic];
    assert_eq!(state.select_motif_terminal_handle(PathClosure::Open, &two, MotifTerminalHandle::Right), Ok(false));
    assert_eq!(state.selected_target, Some(NumericTarget::Control2(1)));
    assert_eq!(
        state.select_motif_terminal_handle(PathClosure::Closed, &two, MotifTerminalHandle::Right),
        Err(PathEditError::NoSegmentSelection)
    );
    let mut shape = PathEditorState::default();
    shape.configure_mode(AuthoredPathEditorMode::Shape);
    assert_eq!(
        shape.select_motif_terminal_handle(PathClosure::Open, &cubic, MotifTerminalHandle::Left),
        Err(PathEditError::NoSegmentSelection)
    );
}

#[test]
fn construction_preserves_open_closed_and_cancel_boundaries() {
    let mut state = PathEditorState::default();
    assert_eq!(state.completion(3), None);
    state.begin(AuthoredStructureKind::OpenPath);
    assert!(!state.starts_with_unit_tile(AuthoredStructureKind::OpenPath));
    assert_eq!(state.insertion_index(0), 0);
    assert_eq!(state.insertion_index(1), 1);
    assert_eq!(state.completion(1), None);
    assert_eq!(
        state.completion(2),
        Some(CompletionShape::Polyline { closure: PathClosure::Open, pin_guide_endpoints: false })
    );
    assert!(state.incomplete());
    state.cancel();
    state.begin(AuthoredStructureKind::ClosedShape);
    assert_eq!(
        state.completion(3),
        Some(CompletionShape::Polyline { closure: PathClosure::Closed, pin_guide_endpoints: false })
    );
    state.cancel();
    assert!(!state.incomplete());
    assert_eq!(state.completion(3), None);
}

#[test]
fn guide_and_motif_constructions_keep_their_frames() {
    let mut guide = PathEditorState::default();
    guide.configure_mode(AuthoredPathEditorMode::Guide);
    guide.begin(AuthoredStructureKind::OpenPath);
    assert_eq!(
        guide.completion(3),
        Some(CompletionShape::Polyline { closure: PathClosure::Open, pin_guide_endpoints: true })
    );
    let mut motif = PathEditorState::default();
    motif.configure_mode(AuthoredPathEditorMode::Motif);
    assert!(motif.starts_with_unit_tile(AuthoredStructureKind::OpenPath));
    motif.begin(AuthoredStructureKind::OpenPath);
    assert_eq!(motif.motif_terminal_direction, Some(MotifTerminalDirection::Smooth));
    assert_eq!(motif.insertion_index(2), 1);
    assert_eq!(motif.insertion_index(3), 2);
    assert_eq!(motif.completion(2), Some(CompletionShape::MotifUnitCubic));
    assert_eq!(
        motif.completion(3),
        Some(CompletionShape::Polyline { closure: PathClosure::Open, pin_guide_endpoints: false })
    );
}

#[test]
fn segment_kind_actions_convert_only_when_needed() {
    let mut state = PathEditorState::default();
    state.select_hit(None, None, Some(0));
    assert_eq!(state.plan_edit(PathClosure::Open, &[SegmentKind::Line], PathEditKind::MakeCurve), Ok(PathEditPlan::ToggleSegment(0)));
    assert_eq!(state.plan_edit(PathClosure::Open, &[SegmentKind::Cubic], PathEditKind::MakeCurve), Ok(PathEditPlan::Unchanged));
    assert_eq!(state.plan_edit(PathClosure::Open, &[SegmentKind::Cubic], PathEditKind::MakeLine), Ok(PathEditPlan::ToggleSegment(0)));
    assert_eq!(state.plan_edit(PathClosure::Open, &[SegmentKind::Line], PathEditKind::MakeLine), Ok(PathEditPlan::Unchanged));
    assert_eq!(state.plan_edit(PathClosure::Open, &[SegmentKind::Line], PathEditKind::InsertNode), Ok(PathEditPlan::InsertIn(0)));
    state.select_hit(None, None, None);
    assert_eq!(
        state.plan_edit(PathClosure::Open, &[SegmentKind::Line], PathEditKind::MakeCurve),
        Err(PathEditError::NoSegmentSelection)
    );
    assert_eq!(
        state.plan_edit(PathClosure::Open, &[SegmentKind::Line], PathEditKind::DeleteNode { node: 0 }),
        Ok(PathEditPlan::Delete(0))
    );
}

#[test]
fn motif_endpoints_are_locked_for_numeric_nudge_drag_and_delete() {
    let mut state = PathEditorState::default();
    state.configure_mode(AuthoredPathEditorMode::Motif);
    let kinds = [SegmentKind::Cubic];
    assert_eq!(state.point_policy(PathClosure::Open, 1, NumericTarget::Anchor(0)), PointPolicy::Locked);
    assert_eq!(state.point_policy(PathClosure::Open, 1, NumericTarget::Anchor(1)), PointPolicy::Locked);
    assert_eq!(state.point_policy(PathClosure::Open, 1, NumericTarget::Control1(0)), PointPolicy::Free);
    assert_eq!(
        state.plan_edit(PathClosure::Open, &kinds, PathEditKind::DeleteNode { node: 1 }),
        Err(PathEditError::EndpointLocked)
    );
    assert_eq!(
        state.plan_edit(PathClosure::Open, &[SegmentKind::Cubic, SegmentKind::Line], PathEditKind::DeleteNode { node: 1 }),
        Ok(PathEditPlan::Delete(1))
    );
    let mut guide = PathEditorState::default();
    guide.configure_mode(AuthoredPathEditorMode::Guide);
    assert_eq!(guide.point_policy(PathClosure::Open, 2, NumericTarget::Anchor(0)), PointPolicy::PinToFrameStart);
    assert_eq!(guide.point_policy(PathClosure::Open, 2, NumericTarget::Anchor(2)), PointPolicy::PinToFrameEnd);
    assert_eq!(guide.point_policy(PathClosure::Open, 2, NumericTarget::Anchor(1)), PointPolicy::Free);
    assert_eq!(PathEditorState::default().point_policy(PathClosure::Open, 2, NumericTarget::Anchor(0)), PointPolicy::Free);
}

#[test]
fn smooth_motifs_link_their_terminal_handles() {
    let mut state = PathEditorState::default();
    assert_eq!(
        state.linked_handle(1, true, true, MotifTerminalDirection::Smooth, NumericTarget::Control1(0)),
        None
    );
    state.configure_mode(AuthoredPathEditorMode::Motif);
    assert_eq!(
        state.linked_handle(2, true, true, MotifTerminalDirection::Smooth, NumericTarget::Control1(0)),
        Some(NumericTarget::Control2(1))
    );
    assert_eq!(
        state.linked_handle(2, true, true, MotifTerminalDirection::Smooth, NumericTarget::Control2(1)),
        Some(NumericTarget::Control1(0))
    );
    assert_eq!(
        state.linked_handle(2, true, true, MotifTerminalDirection::Smooth, NumericTarget::Control2(0)),
        None
    );
    assert_eq!(
        state.linked_handle(2, true, true, MotifTerminalDirection::Corner, NumericTarget::Control1(0)),
        None
    );
    state.set_motif_terminal_direction(MotifTerminalDirection::Smooth);
    assert_eq!(
        state.linked_handle(2, true, true, MotifTerminalDirection::Corner, NumericTarget::Control1(0)),
        Some(NumericTarget::Control2(1))
    );
    assert_eq!(
        state.linked_handle(2, true, false, MotifTerminalDirection::Smooth, NumericTarget::Control1(0)),
        None
    );
}

#[test]
fn motif_terminal_direction_is_local_and_explicit_choices_survive() {
    let mut state = PathEditorState::default();
    state.inspect_motif_terminal_direction(MotifTerminalDirection::Corner);
    assert_eq!(state.motif_terminal_direction, None);
    state.set_motif_terminal_direction(MotifTerminalDirection::Smooth);
    assert_eq!(state.motif_terminal_direction, None);
    state.configure_mode(AuthoredPathEditorMode::Motif);
    state.inspect_motif_terminal_direction(MotifTerminalDirection::Corner);
    assert_eq!(state.motif_terminal_direction, Some(MotifTerminalDirection::Corner));
    state.set_motif_terminal_direction(MotifTerminalDirection::Smooth);
    state.inspect_motif_terminal_direction(MotifTerminalDirection::Corner);
    assert_eq!(state.effective_motif_terminal_direction(MotifTerminalDirection::Corner), MotifTerminalDirection::Smooth);
    state.configure_mode(AuthoredPathEditorMode::Motif);
    assert_eq!(state.effective_motif_terminal_direction(MotifTerminalDirection::Corner), MotifTerminalDirection::Corner);
    assert!(state.motif_terminal_controls_editable(PathClosure::Open, true, true));
    assert!(!state.motif_terminal_controls_editable(PathClosure::Open, true, false));
    assert!(!state.motif_terminal_controls_editable(PathClosure::Closed, true, true));
}

#[test]
fn inactive_canvas_click_is_ignored_until_an_explicit_construction_action() {
    let state = PathEditorState::default();
    assert!(!state.incomplete());
    assert_eq!(state.completion(1), None);
    assert_eq!(state.completion(2), None);
}

#[test]
fn beginning_construction_keeps_the_point_selection() {
    let mut state = PathEditorState::default();
    state.configure_mode(AuthoredPathEditorMode::Guide);
    state.select_hit(Some(2), None, None);
    state.begin(AuthoredStructureKind::OpenPath);
    assert_eq!(state.selected_node, Some(2));
    assert_eq!(state.selected_target, Some(NumericTarget::Anchor(2)));
    assert_eq!(state.mode, Some(AuthoredPathEditorMode::Guide));
}
