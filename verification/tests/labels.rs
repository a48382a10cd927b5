use toniator_app::inspector::PropertyFieldId;
use toniator_app::labels::{
    DisplayValue, ExclusionKind, GuidePrototypeKind, GuideRepetitionKind, MarkOrientationKind, OffsetSides, PaintKind, PropertyEnumChoice,
    PropertyReferenceValue, PropertyUnit, SourceMappingComponent, SourceReference, current_display,
    enum_choice_label, inspector_field_label, inspector_group, reference_label, unit_message,
};
use toniator_app::scatter_memory::RandomCharacterKind;

#[test]
fn fields_are_grouped_by_inspector_section() {
    assert_eq!(inspector_group(PropertyFieldId::SourceReference), "Source");
    assert_eq!(inspector_group(PropertyFieldId::ArtworkWeightResponse), "Source");
    assert_eq!(inspector_group(PropertyFieldId::Opacity), "Appearance");
    assert_eq!(inspector_group(PropertyFieldId::TranslationY), "Transform");
    assert_eq!(inspector_group(PropertyFieldId::ShapeRotationDegrees), "Marks");
    assert_eq!(inspector_group(PropertyFieldId::ConnectedMaximumThickness), "Paths");
    assert_eq!(inspector_group(PropertyFieldId::DefinitionSelection), "Pattern");
    assert_eq!(inspector_group(PropertyFieldId::AlongGuidePhase), "Active family");
    assert_eq!(inspector_group(PropertyFieldId::RandomSeed), "Active mechanism and output");
    assert_eq!(inspector_group(PropertyFieldId::Other(3)), "Active mechanism and output");
}

#[test]
fn fields_have_artist_labels() {
    assert_eq!(inspector_field_label(PropertyFieldId::SourceReference), "Source artwork");
    assert_eq!(inspector_field_label(PropertyFieldId::LegacyMappingComponent), "Source component");
    assert_eq!(inspector_field_label(PropertyFieldId::ModeledMappingComponent), "Source component");
    assert_eq!(inspector_field_label(PropertyFieldId::GuideBaselineAngle), "Direction angle");
    assert_eq!(inspector_field_label(PropertyFieldId::Visibility), "Visible");
    assert_eq!(inspector_field_label(PropertyFieldId::OutputOrientationDimension), "Orientation guide dimension");
    assert_eq!(inspector_field_label(PropertyFieldId::Other(9)), "Advanced pattern setting");
}

#[test]
fn units_map_to_helper_text() {
    assert_eq!(unit_message(PropertyUnit::Unitless), "");
    assert_eq!(unit_message(PropertyUnit::Phase), "Offset");
    assert_eq!(unit_message(PropertyUnit::DocumentDistance), "Canvas distance");
    assert_eq!(unit_message(PropertyUnit::NormalizedComponent), "Channel amount");
    assert_eq!(unit_message(PropertyUnit::Count), "Count");
}

#[test]
fn choices_have_artist_labels() {
    assert_eq!(enum_choice_label(PropertyEnumChoice::SourceMappingComponent(SourceMappingComponent::Luminance)), "Luminance");
    assert_eq!(enum_choice_label(PropertyEnumChoice::Paint(PaintKind::SampledSource)), "Sampled source color");
    assert_eq!(enum_choice_label(PropertyEnumChoice::RandomCharacter(RandomCharacterKind::RawUniform)), "Uniform");
    assert_eq!(enum_choice_label(PropertyEnumChoice::RandomCharacter(RandomCharacterKind::Even)), "Even spacing");
    assert_eq!(enum_choice_label(PropertyEnumChoice::Exclusion(ExclusionKind::NoExclusion)), "None");
    assert_eq!(enum_choice_label(PropertyEnumChoice::MarkOrientation(MarkOrientationKind::GuideNormal)), "Guide normal");
    assert_eq!(enum_choice_label(PropertyEnumChoice::OffsetSides(OffsetSides::Both)), "Both");
    assert_eq!(enum_choice_label(PropertyEnumChoice::Other(2)), "Advanced pattern choice");
}

#[test]
fn references_never_show_their_ids() {
    assert_eq!(reference_label(&PropertyReferenceValue::Source(SourceReference::Unassigned)), "No source assigned");
    assert_eq!(reference_label(&PropertyReferenceValue::Source(SourceReference::Assigned(17))), "Current source artwork");
    assert_eq!(reference_label(&PropertyReferenceValue::GuideDimension(4)), "Direction");
    assert_eq!(reference_label(&PropertyReferenceValue::AuthoredStructure(4)), "Authored open path");
}

#[test]
fn current_values_render_as_text() {
    assert_eq!(current_display(&DisplayValue::U32(0)), "0");
    assert_eq!(current_display(&DisplayValue::U32(4096)), "4096");
    assert_eq!(current_display(&DisplayValue::U32(u32::MAX)), "4294967295");
    assert_eq!(current_display(&DisplayValue::Boolean(true)), "true");
    assert_eq!(current_display(&DisplayValue::Boolean(false)), "false");
    assert_eq!(current_display(&DisplayValue::EnumChoice(PropertyEnumChoice::Paint(PaintKind::Solid))), "Solid color");
    assert_eq!(current_display(&DisplayValue::Reference(PropertyReferenceValue::Definition(1))), "Current pattern");
    assert_eq!(current_display(&DisplayValue::ReferenceCollection(vec![])), "");
    assert_eq!(
        current_display(&DisplayValue::ReferenceCollection(vec![
            PropertyReferenceValue::Mechanism(1),
            PropertyReferenceValue::GuideDimension(2),
            PropertyReferenceValue::AuthoredStructure(3),
        ])),
        "Current placement, Direction, Authored open path"
    );
}

#[test]
fn stage20d_guide_variants_have_inspector_labels() {
    let fields = [
        (PropertyFieldId::GuidePrototype, "Guide prototype"),
        (PropertyFieldId::GuideAuthoredStructure, "Authored open path"),
        (PropertyFieldId::GuideArcCenterX, "Arc center X"),
        (PropertyFieldId::GuideArcCenterY, "Arc center Y"),
        (PropertyFieldId::GuideArcRadius, "Arc radius"),
        (PropertyFieldId::GuideArcStartAngle, "Arc start angle"),
        (PropertyFieldId::GuideArcSweepAngle, "Arc sweep angle"),
        (PropertyFieldId::GuideRepetition, "Guide repetition"),
        (PropertyFieldId::GuideStackDirection, "Stack direction"),
        (PropertyFieldId::GuideStackSpacingMultiplier, "Stack spacing multiplier"),
    ];
    for (field, expected) in fields {
        assert_eq!(inspector_field_label(field), expected);
    }
    let choices = [
        (PropertyEnumChoice::GuidePrototype(GuidePrototypeKind::AuthoredOpenPath), "Authored open path"),
        (PropertyEnumChoice::GuidePrototype(GuidePrototypeKind::CircularArc), "Circular arc"),
        (PropertyEnumChoice::GuideRepetition(GuideRepetitionKind::Single), "Single"),
        (PropertyEnumChoice::GuideRepetition(GuideRepetitionKind::TransformStack), "Transform stack"),
        (PropertyEnumChoice::GuideRepetition(GuideRepetitionKind::NormalOffset), "Normal offset"),
    ];
    for (choice, expected) in choices {
        assert_eq!(enum_choice_label(choice), expected);
    }
    assert_eq!(
        reference_label(&PropertyReferenceValue::AuthoredStructure(7)),
        "Authored open path"
    );
}
