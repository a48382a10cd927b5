use toniator_app::inspector::PatternEditorPurpose;
use toniator_app::presentation::{
    AuthoredStructureKind, AuthoredUseKind, CONSTRUCTION_CANVAS_GESTURE_HINT, ChannelPresence, Easing,
    HalftoneChannelRole, Page, PreviewModel, channel_display_name, channel_role_label,
    construction_action_label, easing_at, easing_index, easing_label,
    requested_construction_width_allows_narrow_breakpoint, should_apply_model_change,
    structure_kind, title, uses_narrow_editor_layout, authored_use_summary,
};

#[test]
fn narrow_editor_layout_stacks_before_the_canvas_becomes_a_sliver() {
    assert!(uses_narrow_editor_layout(620));
    assert!(uses_narrow_editor_layout(700));
    assert!(!uses_narrow_editor_layout(701));
    assert!(!uses_narrow_editor_layout(980));
    assert!(requested_construction_width_allows_narrow_breakpoint());
    assert!(CONSTRUCTION_CANVAS_GESTURE_HINT.contains("Scroll to zoom"));
    assert!(CONSTRUCTION_CANVAS_GESTURE_HINT.contains("middle-button drag pans"));
    assert!(CONSTRUCTION_CANVAS_GESTURE_HINT.contains("Enter completes"));
    assert!(CONSTRUCTION_CANVAS_GESTURE_HINT.contains("Escape cancels"));
}

#[test]
fn purpose_vocabulary_and_topologies_are_fixed() {
    assert_eq!(structure_kind(PatternEditorPurpose::Grid), AuthoredStructureKind::OpenPath);
    assert_eq!(structure_kind(PatternEditorPurpose::Mark), AuthoredStructureKind::ClosedShape);
    assert_eq!(title(PatternEditorPurpose::Grid), "Grid Pattern Editor");
    assert_eq!(title(PatternEditorPurpose::Mark), "Mark Editor");
    assert_eq!(construction_action_label(PatternEditorPurpose::Grid), "New guide path");
    assert_eq!(construction_action_label(PatternEditorPurpose::Mark), "New mark shape");
}

#[test]
fn viewer_pages_models_and_channels_have_stable_names() {
    assert_eq!(Page::Empty.name(), "empty");
    assert_eq!(Page::Loading.name(), "loading");
    assert_eq!(Page::Error.name(), "error");
    assert_eq!(Page::Success.name(), "success");
    assert_eq!(PreviewModel::all(), [PreviewModel::Rgb, PreviewModel::Cmyk, PreviewModel::SourceColorAlpha]);
    assert_eq!(PreviewModel::SourceColorAlpha.label(), "Source color + alpha");
    assert_eq!(PreviewModel::Cmyk.css_class(), "toniator-viewer-cmyk");
    assert_eq!(channel_role_label(HalftoneChannelRole::SourceColor), "Source color");
    assert_eq!(channel_display_name(ChannelPresence::Stored), "Channel");
    assert_eq!(channel_display_name(ChannelPresence::Modeled(HalftoneChannelRole::Cyan)), "Cyan");
    assert_eq!(channel_display_name(ChannelPresence::Missing), "Unavailable channel");
}

#[test]
fn programmatic_model_sync_keeps_loaded_source_color_alpha_clean_and_user_changes_apply() {
    assert!(!should_apply_model_change(true, PreviewModel::SourceColorAlpha, PreviewModel::Rgb, false, true),
        "selector synchronization must not apply an authoritative command");
    assert!(!should_apply_model_change(false, PreviewModel::Rgb, PreviewModel::Rgb, false, true),
        "the selected current model remains a no-op");
    assert!(should_apply_model_change(false, PreviewModel::SourceColorAlpha, PreviewModel::Cmyk, false, true));
    assert!(!should_apply_model_change(false, PreviewModel::Rgb, PreviewModel::Cmyk, true, true));
    assert!(!should_apply_model_change(false, PreviewModel::Rgb, PreviewModel::Cmyk, false, false));
}

#[test]
fn easing_selector_positions_round_trip() {
    for index in 0..6 {
        let easing = easing_at(index).unwrap();
        assert_eq!(easing_index(Some(easing)), index);
    }
    assert_eq!(easing_at(6), None);
    assert_eq!(easing_index(None), 0);
    assert_eq!(easing_label(Easing::Hold), "Hold until End");
    assert_eq!(easing_label(Easing::SmoothInOut), "Smooth in and out");
}

#[test]
fn authored_use_summaries_count_structures_of_the_same_kind() {
    let structures = [
        (AuthoredStructureKind::OpenPath, 10),
        (AuthoredStructureKind::ClosedShape, 11),
        (AuthoredStructureKind::OpenPath, 12),
        (AuthoredStructureKind::ClosedShape, 13),
        (AuthoredStructureKind::OpenPath, 14),
    ];
    assert_eq!(
        authored_use_summary(&structures, 12, AuthoredUseKind::Guide, ChannelPresence::Stored),
        "Guide path 2 used by Channel"
    );
    assert_eq!(
        authored_use_summary(
            &structures,
            13,
            AuthoredUseKind::Mark,
            ChannelPresence::Modeled(HalftoneChannelRole::Cyan)
        ),
        "Mark shape 2 used by Cyan"
    );
    assert_eq!(
        authored_use_summary(&structures, 10, AuthoredUseKind::Guide, ChannelPresence::Missing),
        "Guide path 1 used by Unavailable channel"
    );
    assert_eq!(
        authored_use_summary(&structures, 99, AuthoredUseKind::Guide, ChannelPresence::Stored),
        "Unavailable authored-resource use"
    );
}
