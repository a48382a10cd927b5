use toniator_app::channels::ChannelId;
use toniator_app::commands::{
    DefinitionEditRoute, DensityAxis, EditValue, InspectorCommandRoute, InspectorInput,
    TranslationAxis, definition_edit_channel, guide_dimension_ids, inspector_command_route,
    structural_command_route,
};
use toniator_app::inspector::{PropertyDescriptor, PropertyFieldId, PropertyTarget, PropertyValueKind};
use toniator_app::labels::{
    OffsetSides, PaintKind, PropertyEnumChoice, PropertyReferenceValue, SourceMappingComponent,
    SourcePlacement, SourceReference,
};
use toniator_app::paint::ColorComponent;

fn descriptor(target: PropertyTarget, field: PropertyFieldId) -> PropertyDescriptor {
    PropertyDescriptor { target, field, value_kind: PropertyValueKind::FiniteF64 }
}

const FINITE: InspectorInput = InspectorInput::Number { finite: true };
const CHANNEL: PropertyTarget = PropertyTarget::Channel(ChannelId(2));

fn route(target: PropertyTarget, field: PropertyFieldId, input: InspectorInput) -> Result<InspectorCommandRoute, String> {
    inspector_command_route(&descriptor(target, field), &input)
}

fn error(text: &str) -> Result<InspectorCommandRoute, String> {
    Err(text.to_owned())
}

#[test]
fn channel_fields_need_a_channel_target_before_their_value() {
    assert_eq!(
        route(CHANNEL, PropertyFieldId::Opacity, FINITE),
        Ok(InspectorCommandRoute::Opacity { channel: ChannelId(2) })
    );
    assert_eq!(
        route(PropertyTarget::Document, PropertyFieldId::Opacity, InspectorInput::Boolean(true)),
        error("This field requires a selected channel.")
    );
    assert_eq!(
        route(CHANNEL, PropertyFieldId::Opacity, InspectorInput::Number { finite: false }),
        error("Expected a finite numeric value.")
    );
    assert_eq!(
        route(CHANNEL, PropertyFieldId::TranslationY, FINITE),
        Ok(InspectorCommandRoute::Translation { channel: ChannelId(2), axis: TranslationAxis::Y })
    );
    assert_eq!(
        route(CHANNEL, PropertyFieldId::ColorBlue, FINITE),
        Ok(InspectorCommandRoute::Color { channel: ChannelId(2), component: ColorComponent::Blue })
    );
    assert_eq!(
        route(CHANNEL, PropertyFieldId::Visibility, InspectorInput::Boolean(false)),
        Ok(InspectorCommandRoute::Visibility { channel: ChannelId(2), visible: false })
    );
    assert_eq!(
        route(CHANNEL, PropertyFieldId::Visibility, FINITE),
        error("Expected a Boolean value.")
    );
}

#[test]
fn document_or_channel_fields_check_the_value_before_the_authority() {
    assert_eq!(
        route(PropertyTarget::Document, PropertyFieldId::DensityAcrossX, FINITE),
        Ok(InspectorCommandRoute::DocumentDensity { axis: DensityAxis::AcrossX })
    );
    assert_eq!(
        route(CHANNEL, PropertyFieldId::DensityAcrossY, FINITE),
        Ok(InspectorCommandRoute::ChannelDensity { channel: ChannelId(2), axis: DensityAxis::AcrossY })
    );
    assert_eq!(
        route(PropertyTarget::Definition(1), PropertyFieldId::DensityAcrossY, FINITE),
        error("Density requires document or channel authority.")
    );
    assert_eq!(
        route(PropertyTarget::Definition(1), PropertyFieldId::DensityAcrossY, InspectorInput::WholeNumber(3)),
        error("Expected a finite numeric value.")
    );
    assert_eq!(
        route(PropertyTarget::Definition(1), PropertyFieldId::RotationDegrees, FINITE),
        error("Pattern rotation requires document or channel authority.")
    );
    assert_eq!(
        route(PropertyTarget::Document, PropertyFieldId::ShapeRotationDegrees, FINITE),
        Ok(InspectorCommandRoute::DocumentShapeRotation)
    );
    assert_eq!(
        route(PropertyTarget::ChannelOutput(ChannelId(2), 7), PropertyFieldId::MarkMinimumFill, FINITE),
        Ok(InspectorCommandRoute::MarkFill { channel: ChannelId(2), output_layer: 7, minimum: true })
    );
    assert_eq!(
        route(CHANNEL, PropertyFieldId::ConnectedMaximumThickness, FINITE),
        error("Connected response requires document or channel authority.")
    );
    assert_eq!(
        route(CHANNEL, PropertyFieldId::DensityAspectLocked, InspectorInput::Boolean(true)),
        Ok(InspectorCommandRoute::DocumentAspectLock { locked: true })
    );
}

#[test]
fn references_and_choices_must_have_the_fields_kind() {
    assert_eq!(
        route(PropertyTarget::Document, PropertyFieldId::SourceReference, InspectorInput::Reference(PropertyReferenceValue::Source(SourceReference::Unassigned))),
        Ok(InspectorCommandRoute::Source { source: SourceReference::Unassigned })
    );
    assert_eq!(
        route(PropertyTarget::Document, PropertyFieldId::SourceReference, InspectorInput::Reference(PropertyReferenceValue::Definition(1))),
        error("Expected a source reference.")
    );
    assert_eq!(
        route(PropertyTarget::Document, PropertyFieldId::SourceReference, FINITE),
        error("Expected a stable reference.")
    );
    assert_eq!(
        route(CHANNEL, PropertyFieldId::DefinitionSelection, InspectorInput::Reference(PropertyReferenceValue::Definition(4))),
        Ok(InspectorCommandRoute::ChannelDefinition { channel: ChannelId(2), definition: 4 })
    );
    let luminance = InspectorInput::Choice(PropertyEnumChoice::SourceMappingComponent(SourceMappingComponent::Luminance));
    let red = InspectorInput::Choice(PropertyEnumChoice::SourceMappingComponent(SourceMappingComponent::Red));
    assert_eq!(
        route(CHANNEL, PropertyFieldId::LegacyMappingComponent, luminance.clone()),
        Ok(InspectorCommandRoute::LegacyMappingComponent { channel: ChannelId(2), component: SourceMappingComponent::Luminance })
    );
    assert_eq!(
        route(CHANNEL, PropertyFieldId::LegacyMappingComponent, red.clone()),
        error("Legacy mapping supports Luminance or Alpha.")
    );
    assert_eq!(
        route(CHANNEL, PropertyFieldId::ModeledMappingComponent, red),
        Ok(InspectorCommandRoute::ModeledMappingComponent { channel: ChannelId(2), component: SourceMappingComponent::Red })
    );
    assert_eq!(
        route(PropertyTarget::Document, PropertyFieldId::LegacyMappingComponent, luminance),
        error("This field requires a selected channel.")
    );
    assert_eq!(
        route(CHANNEL, PropertyFieldId::ModeledMappingPlacement, InspectorInput::Choice(PropertyEnumChoice::SourcePlacement(SourcePlacement::StretchToCanvas))),
        Ok(InspectorCommandRoute::ModeledMappingPlacement { channel: ChannelId(2), placement: SourcePlacement::StretchToCanvas })
    );
    assert_eq!(
        route(CHANNEL, PropertyFieldId::Paint, InspectorInput::Choice(PropertyEnumChoice::Paint(PaintKind::Solid))),
        Ok(InspectorCommandRoute::SolidPaint { channel: ChannelId(2) })
    );
    assert_eq!(
        route(CHANNEL, PropertyFieldId::Paint, InspectorInput::Choice(PropertyEnumChoice::Other(1))),
        error("Expected a paint choice.")
    );
}

fn structural(target: PropertyTarget, field: PropertyFieldId, input: InspectorInput) -> Result<DefinitionEditRoute, String> {
    structural_command_route(&descriptor(target, field), &input)
}

#[test]
fn structural_edits_address_their_mechanism_dimension_or_output() {
    assert_eq!(
        structural(PropertyTarget::GuideDimension(1, 2, 3), PropertyFieldId::GuidePhase, FINITE),
        Ok(DefinitionEditRoute { definition: 1, field: PropertyFieldId::GuidePhase, mechanism: Some(2), dimension: Some(3), output_layer: None, value: EditValue::Number })
    );
    assert_eq!(
        structural(PropertyTarget::Mechanism(1, 2), PropertyFieldId::GuidePhase, FINITE),
        Err("Guide dimension target is required.".to_owned())
    );
    assert_eq!(
        structural(PropertyTarget::Definition(1), PropertyFieldId::GuidePhase, InspectorInput::Boolean(true)),
        Err("This field requires an active mechanism.".to_owned())
    );
    assert_eq!(
        structural(PropertyTarget::Definition(1), PropertyFieldId::CoverageGuardSteps, InspectorInput::WholeNumber(4)),
        Ok(DefinitionEditRoute { definition: 1, field: PropertyFieldId::CoverageGuardSteps, mechanism: None, dimension: None, output_layer: None, value: EditValue::Count(4) })
    );
    assert_eq!(
        structural(PropertyTarget::Definition(1), PropertyFieldId::CoverageGuardSteps, FINITE),
        Err("Expected a whole number.".to_owned())
    );
    assert_eq!(
        structural(PropertyTarget::Mechanism(1, 5), PropertyFieldId::RandomSeed, InspectorInput::WholeNumber(9)),
        Ok(DefinitionEditRoute { definition: 1, field: PropertyFieldId::RandomSeed, mechanism: Some(5), dimension: None, output_layer: None, value: EditValue::Count(9) })
    );
    assert_eq!(
        structural(PropertyTarget::GuideDimension(1, 2, 3), PropertyFieldId::GuideOffsetSides, InspectorInput::Choice(PropertyEnumChoice::OffsetSides(OffsetSides::Left))),
        Ok(DefinitionEditRoute { definition: 1, field: PropertyFieldId::GuideOffsetSides, mechanism: Some(2), dimension: Some(3), output_layer: None, value: EditValue::Choice(PropertyEnumChoice::OffsetSides(OffsetSides::Left)) })
    );
    assert_eq!(
        structural(PropertyTarget::Definition(1), PropertyFieldId::GuideOffsetSides, InspectorInput::Choice(PropertyEnumChoice::Other(0))),
        Err("Expected an offset-side choice.".to_owned())
    );
    assert_eq!(
        structural(PropertyTarget::OutputLayer(1, 8), PropertyFieldId::OutputSiteProduct, InspectorInput::Reference(PropertyReferenceValue::Mechanism(6))),
        Ok(DefinitionEditRoute { definition: 1, field: PropertyFieldId::OutputSiteProduct, mechanism: None, dimension: None, output_layer: Some(8), value: EditValue::MechanismReference(6) })
    );
    assert_eq!(
        structural(PropertyTarget::Definition(1), PropertyFieldId::OutputSiteProduct, InspectorInput::Reference(PropertyReferenceValue::Mechanism(6))),
        Err("This field requires an active output layer.".to_owned())
    );
    assert_eq!(
        structural(PropertyTarget::OutputLayer(1, 8), PropertyFieldId::OutputOrientationDimension, InspectorInput::Reference(PropertyReferenceValue::Mechanism(6))),
        Err("Expected a guide dimension reference.".to_owned())
    );
}

#[test]
fn structural_routes_refuse_what_they_cannot_edit() {
    assert_eq!(
        structural(CHANNEL, PropertyFieldId::RandomSeed, InspectorInput::WholeNumber(1)),
        Err("This field is not structural.".to_owned())
    );
    assert_eq!(
        structural(PropertyTarget::Mechanism(1, 2), PropertyFieldId::RandomCharacter, FINITE),
        Err("This compound selector requires the visible transition draft and confirmation.".to_owned())
    );
    assert_eq!(
        structural(PropertyTarget::Mechanism(1, 2), PropertyFieldId::GuidePrototype, FINITE),
        Err("This active descriptor has no compatible Stage 18 route.".to_owned())
    );
    let dims = InspectorInput::ReferenceCollection(vec![PropertyReferenceValue::GuideDimension(4), PropertyReferenceValue::GuideDimension(5)]);
    assert_eq!(
        structural(PropertyTarget::Mechanism(1, 2), PropertyFieldId::IntersectionDimensions, dims),
        Ok(DefinitionEditRoute { definition: 1, field: PropertyFieldId::IntersectionDimensions, mechanism: Some(2), dimension: None, output_layer: None, value: EditValue::Dimensions })
    );
    let mixed = InspectorInput::ReferenceCollection(vec![PropertyReferenceValue::GuideDimension(4), PropertyReferenceValue::Mechanism(5)]);
    assert_eq!(
        structural(PropertyTarget::Mechanism(1, 2), PropertyFieldId::AlongGuideDimensions, mixed),
        Err("Expected guide dimension references.".to_owned())
    );
    assert_eq!(
        structural(PropertyTarget::Mechanism(1, 2), PropertyFieldId::AlongGuideDimensions, FINITE),
        Err("Expected an ordered stable-reference collection.".to_owned())
    );
    assert_eq!(
        inspector_command_route(&descriptor(PropertyTarget::Mechanism(1, 2), PropertyFieldId::RandomSeed), &InspectorInput::WholeNumber(3)),
        Ok(InspectorCommandRoute::Definition(DefinitionEditRoute { definition: 1, field: PropertyFieldId::RandomSeed, mechanism: Some(2), dimension: None, output_layer: None, value: EditValue::Count(3) }))
    );
}

#[test]
fn definition_edits_need_the_definition_and_then_a_channel() {
    assert_eq!(guide_dimension_ids(&[PropertyReferenceValue::GuideDimension(4), PropertyReferenceValue::GuideDimension(9)]), Ok(vec![4, 9]));
    assert_eq!(guide_dimension_ids(&[]), Ok(vec![]));
    assert_eq!(
        guide_dimension_ids(&[PropertyReferenceValue::Definition(4)]),
        Err("Expected guide dimension references.".to_owned())
    );
    assert_eq!(definition_edit_channel(Some(ChannelId(1)), true), Ok(ChannelId(1)));
    assert_eq!(definition_edit_channel(None, false), Err("The active definition is missing.".to_owned()));
    assert_eq!(
        definition_edit_channel(None, true),
        Err("Select a channel before editing its definition.".to_owned())
    );
}
