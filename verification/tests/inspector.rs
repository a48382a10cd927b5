use toniator_app::channels::{
    ChannelId, INVALID_LIST_POSITION, channel_id_at_selector_position,
    selected_channel_after_transition,
};
use toniator_app::inspector::{
    InspectorControlRoute, InspectorFocusIdentity, PatternEditorPurpose, PropertyCurrentValue,
    PropertyCurrentValueKind, PropertyDescriptor, PropertyFieldId, PropertyTarget,
    PropertyValueKind, artist_pattern_name, channel_inspector_values, control_route,
    descriptor_belongs_to_editor, draft_direction_ordinal, draft_grid_topology,
    draft_pattern_summary, focus_after_command_attempt, focus_for_descriptor,
    focus_for_descriptor_in_values, focus_matches, focus_with_collection_index, inspector_key,
    is_pattern_editor_advanced_safety_descriptor, is_structural_descriptor,
    pattern_editor_values, resolve_descriptor_focus, resolve_focus_after_document_change,
    selected_property_values, target_definition_id, InspectorRebuild, focus_after_rebuild, ReferenceChoiceSource,
    collection_choice_source, draft_reference_choice_source, reference_choice_source, target_mechanism_id, target_output_layer_id,
};
use toniator_app::presentation::{Page, page_after_preview_error, page_while_preview_pending};

fn value(target: PropertyTarget, field: PropertyFieldId) -> PropertyCurrentValue {
    PropertyCurrentValue {
        descriptor: PropertyDescriptor {
            target,
            field,
            value_kind: PropertyValueKind::FiniteF64,
        },
        value: PropertyCurrentValueKind::FiniteF64,
    }
}

#[test]
fn inspector_selection_is_stable_id_based_and_has_deterministic_removal_fallback() {
    let ids = [ChannelId(30), ChannelId(10), ChannelId(20)];
    assert_eq!(
        selected_channel_after_transition(Some(ChannelId(10)), &ids),
        Some(ChannelId(10))
    );
    assert_eq!(
        selected_channel_after_transition(Some(ChannelId(99)), &ids),
        Some(ChannelId(30))
    );
    assert_eq!(
        selected_channel_after_transition(None, &ids),
        Some(ChannelId(30))
    );
    assert_eq!(
        selected_channel_after_transition(Some(ChannelId(10)), &[]),
        None
    );
    assert_eq!(
        channel_id_at_selector_position(1, &ids),
        Some(ChannelId(10)),
        "a valid GTK position resolves through authoritative document order"
    );
    assert_eq!(
        channel_id_at_selector_position(INVALID_LIST_POSITION, &ids),
        None,
        "GTK's invalid position cannot alter selected channel state"
    );
    assert_eq!(
        channel_id_at_selector_position(3, &ids),
        None,
        "out-of-range positions cannot select a stale channel"
    );
}

#[test]
fn inspector_focus_policy_preserves_rejected_drafts_and_restores_active_controls() {
    let channel_id = ChannelId(7);
    let opacity = value(PropertyTarget::Channel(channel_id), PropertyFieldId::Opacity);
    let values = vec![
        value(PropertyTarget::Document, PropertyFieldId::SourceReference),
        opacity,
        value(PropertyTarget::Definition(3), PropertyFieldId::RandomSeed),
    ];
    let opacity_focus = focus_for_descriptor(&opacity.descriptor, None);
    let collection_focus = focus_for_descriptor(&opacity.descriptor, Some(3));
    assert_eq!(
        focus_after_command_attempt(Some(collection_focus), Some(opacity_focus), false),
        Some(collection_focus),
        "a rejected/no-op command leaves the focused invalid draft in place"
    );
    assert_eq!(
        focus_after_command_attempt(Some(collection_focus), Some(opacity_focus), true),
        Some(opacity_focus),
        "an accepted command requests focus for its initiating control"
    );
    assert_eq!(
        resolve_focus_after_document_change(&values, Some(channel_id), Some(3), Some(opacity_focus)),
        Some(opacity_focus),
        "ordinary apply/undo/redo rebuilds retain an active descriptor target"
    );
    let stale_definition_key = InspectorFocusIdentity::Descriptor {
        key: inspector_key(&PropertyDescriptor {
            target: PropertyTarget::Definition(99),
            field: PropertyFieldId::RandomSeed,
            value_kind: PropertyValueKind::U32,
        }),
        field: PropertyFieldId::Opacity,
        collection_index: Some(3),
        guide_ordinal: None,
    };
    assert_eq!(
        resolve_focus_after_document_change(
            &values,
            Some(channel_id),
            Some(3),
            Some(stale_definition_key),
        ),
        Some(focus_for_descriptor(&opacity.descriptor, Some(3))),
        "a selected-copy target may remap only to the same active field and collection item"
    );
    assert_eq!(
        resolve_focus_after_document_change(&values, None, Some(3), Some(opacity_focus)),
        None
    );
    assert_eq!(
        selected_channel_after_transition(Some(channel_id), &[]),
        None,
        "topology removal has no surviving channel to focus"
    );
}

#[test]
fn selected_copy_remaps_repeated_guide_scalars_by_authoritative_ordinal_only() {
    let values_for = |definition: u64, mechanism: u64, dimensions: [u64; 3]| {
        dimensions.map(|dimension| {
            value(
                PropertyTarget::GuideDimension(definition, mechanism, dimension),
                PropertyFieldId::GuidePhase,
            )
        })
    };
    let before = values_for(10, 20, [31, 32, 33]);
    let third_focus = focus_for_descriptor_in_values(&before, &before[2].descriptor, None);
    let after = values_for(40, 50, [61, 62, 63]);
    assert_eq!(
        resolve_descriptor_focus(&after, Some(third_focus)),
        Some(focus_for_descriptor_in_values(&after, &after[2].descriptor, None)),
        "fresh selected-copy IDs remap the third repeated guide scalar to the third target"
    );
    assert_eq!(
        resolve_descriptor_focus(
            &after[..2],
            Some(focus_for_descriptor_in_values(&before, &before[2].descriptor, None))
        ),
        None,
        "if the corresponding guide target is gone, focus clears instead of choosing the first"
    );
    match third_focus {
        InspectorFocusIdentity::Descriptor { guide_ordinal, .. } => {
            assert_eq!(guide_ordinal, Some(2))
        }
    }
}

#[test]
fn inspector_disclosure_metadata_and_preview_pages_preserve_accepted_content() {
    assert!(is_pattern_editor_advanced_safety_descriptor(
        PropertyFieldId::CoverageGuardSteps
    ));
    assert!(is_pattern_editor_advanced_safety_descriptor(
        PropertyFieldId::RandomMaximumNeighborChecks
    ));
    assert!(!is_pattern_editor_advanced_safety_descriptor(
        PropertyFieldId::RandomSeed
    ));
    assert_eq!(page_while_preview_pending(true), Page::Success);
    assert_eq!(page_while_preview_pending(false), Page::Loading);
    assert_eq!(page_after_preview_error(true), Page::Success);
    assert_eq!(page_after_preview_error(false), Page::Error);
}

#[test]
fn every_active_descriptor_value_has_one_generic_control_route() {
    let pairs = [
        (PropertyValueKind::FiniteF64, PropertyCurrentValueKind::FiniteF64, InspectorControlRoute::FiniteNumber),
        (PropertyValueKind::U32, PropertyCurrentValueKind::U32, InspectorControlRoute::WholeNumber),
        (PropertyValueKind::Boolean, PropertyCurrentValueKind::Boolean, InspectorControlRoute::Toggle),
        (PropertyValueKind::EnumChoice, PropertyCurrentValueKind::EnumChoice, InspectorControlRoute::Choice),
        (PropertyValueKind::StableIdReference, PropertyCurrentValueKind::Reference, InspectorControlRoute::Reference),
        (
            PropertyValueKind::StableIdReference,
            PropertyCurrentValueKind::ReferenceCollection,
            InspectorControlRoute::ReferenceCollection,
        ),
    ];
    for (kind, current, route) in pairs {
        let mut pair = value(PropertyTarget::Document, PropertyFieldId::Opacity);
        pair.descriptor.value_kind = kind;
        pair.value = current;
        assert_eq!(control_route(&pair), Some(route));
    }
    let mut mismatched = value(PropertyTarget::Document, PropertyFieldId::Opacity);
    mismatched.value = PropertyCurrentValueKind::Boolean;
    assert_eq!(control_route(&mismatched), None);
}

#[test]
fn sidebar_and_editor_filters_keep_their_own_fields() {
    let channel = ChannelId(1);
    let values = vec![
        value(PropertyTarget::Document, PropertyFieldId::SourceReference),
        value(PropertyTarget::Document, PropertyFieldId::Opacity),
        value(PropertyTarget::Channel(channel), PropertyFieldId::Opacity),
        value(PropertyTarget::Channel(ChannelId(2)), PropertyFieldId::Opacity),
        value(PropertyTarget::Definition(5), PropertyFieldId::GuidePhase),
        value(PropertyTarget::Definition(6), PropertyFieldId::MarkMinimumFill),
        value(PropertyTarget::Mechanism(5, 1), PropertyFieldId::MarkMaximumFill),
    ];
    let selected = selected_property_values(&values, channel, Some(5));
    assert_eq!(selected.len(), 5);
    assert_eq!(selected[3], values[4]);
    assert_eq!(selected[4], values[6]);
    assert!(selected_property_values(&values, channel, None).len() == 3);
    let sidebar = channel_inspector_values(&selected);
    assert_eq!(sidebar, vec![values[0], values[2]]);
    let grid = pattern_editor_values(&selected, PatternEditorPurpose::Grid);
    assert_eq!(grid, vec![values[4]]);
    let mark = pattern_editor_values(&selected, PatternEditorPurpose::Mark);
    assert_eq!(mark, vec![values[6]]);
    assert!(descriptor_belongs_to_editor(&PropertyFieldId::DensityAspectLocked, PatternEditorPurpose::Grid));
    assert!(!descriptor_belongs_to_editor(&PropertyFieldId::DensityAspectLocked, PatternEditorPurpose::Mark));
    assert!(is_structural_descriptor(&values[4].descriptor));
    assert!(!is_structural_descriptor(&values[2].descriptor));
}

#[test]
fn artist_names_follow_the_active_mechanism() {
    let random = [value(PropertyTarget::Definition(1), PropertyFieldId::RandomCharacter)];
    let grid = [value(PropertyTarget::Definition(1), PropertyFieldId::GuideBaselineAngle)];
    assert_eq!(artist_pattern_name(&random), "Random");
    assert_eq!(artist_pattern_name(&grid), "Grid");
    assert_eq!(artist_pattern_name(&[]), "Simple XY Grid");
}

#[test]
fn focus_collection_index_moves_within_the_same_row() {
    let row = value(PropertyTarget::Channel(ChannelId(3)), PropertyFieldId::Opacity);
    let focus = focus_for_descriptor(&row.descriptor, None);
    let moved = focus_with_collection_index(&focus, 4);
    assert_eq!(moved, focus_for_descriptor(&row.descriptor, Some(4)));
    assert!(focus_matches(&Some(moved), &moved));
    assert!(!focus_matches(&Some(focus), &moved));
    assert!(!focus_matches(&None, &moved));
}

#[test]
fn structural_targets_name_their_owners() {
    assert_eq!(target_definition_id(PropertyTarget::Definition(4)), Some(4));
    assert_eq!(target_definition_id(PropertyTarget::Mechanism(4, 9)), Some(4));
    assert_eq!(target_definition_id(PropertyTarget::OutputLayer(6, 2)), Some(6));
    assert_eq!(target_definition_id(PropertyTarget::GuideDimension(7, 8, 1)), Some(7));
    assert_eq!(target_definition_id(PropertyTarget::Channel(ChannelId(1))), None);
    assert_eq!(target_definition_id(PropertyTarget::Document), None);
    assert_eq!(target_mechanism_id(PropertyTarget::Mechanism(4, 9)), Some(9));
    assert_eq!(target_mechanism_id(PropertyTarget::GuideDimension(7, 8, 1)), Some(8));
    assert_eq!(target_mechanism_id(PropertyTarget::Definition(4)), None);
    assert_eq!(target_output_layer_id(PropertyTarget::OutputLayer(6, 2)), Some(2));
    assert_eq!(target_output_layer_id(PropertyTarget::Mechanism(6, 2)), None);
}

#[test]
fn grid_topology_counts_one_to_four_directions() {
    let angle = |d: u64| value(PropertyTarget::GuideDimension(1, 2, d), PropertyFieldId::GuideBaselineAngle);
    assert_eq!(draft_grid_topology(&[]), None);
    assert_eq!(draft_grid_topology(&[angle(0)]), Some((1, false)));
    let with_sites = vec![
        angle(0),
        value(PropertyTarget::Definition(1), PropertyFieldId::GuidePhase),
        angle(1),
        value(PropertyTarget::Definition(1), PropertyFieldId::IntersectionDimensions),
    ];
    assert_eq!(draft_grid_topology(&with_sites), Some((2, true)));
    let five: Vec<_> = (0..5).map(angle).collect();
    assert_eq!(draft_grid_topology(&five), None);
    assert_eq!(draft_grid_topology(&five[..4]), Some((4, false)));
    assert_eq!(draft_pattern_summary(&with_sites, PatternEditorPurpose::Grid), "Custom guide layout");
    assert_eq!(draft_pattern_summary(&five, PatternEditorPurpose::Grid), "Simple XY Grid");
    assert_eq!(draft_pattern_summary(&with_sites, PatternEditorPurpose::Mark), "Mark appearance");
}

#[test]
fn direction_labels_count_guides_of_the_same_field() {
    let angle = |d: u64| value(PropertyTarget::GuideDimension(1, 2, d), PropertyFieldId::GuideBaselineAngle);
    let values = vec![
        angle(10),
        value(PropertyTarget::GuideDimension(1, 2, 10), PropertyFieldId::GuidePhase),
        value(PropertyTarget::GuideDimension(1, 2, 11), PropertyFieldId::GuidePhase),
        angle(11),
        angle(12),
    ];
    assert_eq!(draft_direction_ordinal(&values, &values[0].descriptor), 1);
    assert_eq!(draft_direction_ordinal(&values, &values[3].descriptor), 2);
    assert_eq!(draft_direction_ordinal(&values, &values[4].descriptor), 3);
    assert_eq!(draft_direction_ordinal(&values, &values[2].descriptor), 2);
    assert_eq!(draft_direction_ordinal(&values, &angle(99).descriptor), 1);
}

#[test]
fn reference_controls_take_choices_from_their_owners() {
    assert_eq!(reference_choice_source(PropertyFieldId::SourceReference), ReferenceChoiceSource::CurrentSource);
    assert_eq!(reference_choice_source(PropertyFieldId::DefinitionSelection), ReferenceChoiceSource::Definitions);
    assert_eq!(reference_choice_source(PropertyFieldId::OutputSiteProduct), ReferenceChoiceSource::Mechanisms);
    assert_eq!(
        reference_choice_source(PropertyFieldId::OutputOrientationDimension),
        ReferenceChoiceSource::GuideDimensions
    );
    assert_eq!(reference_choice_source(PropertyFieldId::IntersectionDimensions), ReferenceChoiceSource::NoChoices);
    assert_eq!(
        collection_choice_source(PropertyFieldId::AlongGuideDimensions),
        ReferenceChoiceSource::GuideDimensions
    );
    assert_eq!(collection_choice_source(PropertyFieldId::OutputSiteProduct), ReferenceChoiceSource::NoChoices);
    assert_eq!(
        draft_reference_choice_source(PropertyFieldId::IntersectionDimensions),
        ReferenceChoiceSource::GuideDimensions
    );
    assert_eq!(draft_reference_choice_source(PropertyFieldId::SourceReference), ReferenceChoiceSource::NoChoices);
    assert_eq!(draft_reference_choice_source(PropertyFieldId::OutputSiteProduct), ReferenceChoiceSource::Mechanisms);
}

#[test]
fn a_changed_selection_clears_focus_and_structural_context() {
    let row = value(PropertyTarget::Channel(ChannelId(1)), PropertyFieldId::Opacity);
    let values = vec![row];
    let focus = Some(focus_for_descriptor(&row.descriptor, None));
    assert_eq!(
        focus_after_rebuild(&values, Some(ChannelId(2)), Some(ChannelId(1)), None, focus),
        InspectorRebuild { focus: None, clear_structural_context: true }
    );
    assert_eq!(
        focus_after_rebuild(&values, Some(ChannelId(1)), None, None, focus),
        InspectorRebuild { focus: None, clear_structural_context: true }
    );
    assert_eq!(
        focus_after_rebuild(&values, Some(ChannelId(1)), Some(ChannelId(1)), None, focus),
        InspectorRebuild { focus, clear_structural_context: false }
    );
    assert_eq!(
        focus_after_rebuild(&values, None, Some(ChannelId(1)), None, focus),
        InspectorRebuild { focus, clear_structural_context: false }
    );
    assert_eq!(
        focus_after_rebuild(&values, None, None, None, focus),
        InspectorRebuild { focus: None, clear_structural_context: false }
    );
}
