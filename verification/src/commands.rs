//! Routing of one inspector input to the document command it asks for: which
//! authority (document, channel, channel output or pattern definition) the
//! edit goes to, with which typed value, or the message shown when the input
//! does not fit the field or its target.
//!
//! The document builds the command from the route; numeric values stay with
//! the caller, and only whether a number is finite is read here.

use vstd::prelude::*;
use crate::channels::ChannelId;
use crate::inspector::{
    PatternEditorPurpose, PropertyDescriptor, PropertyFieldId, PropertyTarget, PropertyValueKind,
    definition_of, editor_field,
};
use crate::labels::{
    PaintKind, PropertyEnumChoice, PropertyReferenceValue, SourceMappingComponent,
    SourcePlacement, SourceReference,
};
use crate::paint::ColorComponent;
use crate::workspace::result_is;

verus! {

/// One completed inspector input; a number is carried only as whether it is
/// finite.
#[derive(Clone, Debug)]
pub enum InspectorInput {
    Number { finite: bool },
    WholeNumber(u32),
    Boolean(bool),
    Choice(PropertyEnumChoice),
    Reference(PropertyReferenceValue),
    ReferenceCollection(Vec<PropertyReferenceValue>),
}

/// The typed value a definition edit carries.
#[derive(Clone, Copy, Debug, PartialEq, Eq, Structural)]
pub enum EditValue {
    /// The input's finite number.
    Number,
    Count(u32),
    Flag(bool),
    Choice(PropertyEnumChoice),
    MechanismReference(u64),
    DimensionReference(u64),
    /// The input's guide dimensions, in order.
    Dimensions,
    /// The circle mark prototype.
    CirclePrototype,
}

/// One edit of a pattern definition: the field, the mechanism, guide
/// dimension or output layer it addresses, and its value.
#[derive(Clone, Copy, Debug, PartialEq, Eq, Structural)]
pub struct DefinitionEditRoute {
    pub definition: u64,
    pub field: PropertyFieldId,
    pub mechanism: Option<u64>,
    pub dimension: Option<u64>,
    pub output_layer: Option<u64>,
    pub value: EditValue,
}

/// A density axis.
#[derive(Clone, Copy, Debug, PartialEq, Eq, Structural)]
pub enum DensityAxis {
    AcrossX,
    AcrossY,
}

/// A translation axis.
#[derive(Clone, Copy, Debug, PartialEq, Eq, Structural)]
pub enum TranslationAxis {
    X,
    Y,
}

/// The command an inspector input asks for; numbers are the input's own.
#[derive(Clone, Copy, Debug, PartialEq, Eq, Structural)]
pub enum InspectorCommandRoute {
    DocumentDensity { axis: DensityAxis },
    ChannelDensity { channel: ChannelId, axis: DensityAxis },
    DocumentAspectLock { locked: bool },
    DocumentRotation,
    ChannelRotation { channel: ChannelId },
    Translation { channel: ChannelId, axis: TranslationAxis },
    MarkFill { channel: ChannelId, output_layer: u64, minimum: bool },
    ConnectedThickness { channel: ChannelId, output_layer: u64, minimum: bool },
    DocumentShapeRotation,
    ChannelShapeRotation { channel: ChannelId },
    Color { channel: ChannelId, component: ColorComponent },
    Opacity { channel: ChannelId },
    Visibility { channel: ChannelId, visible: bool },
    Source { source: SourceReference },
    DocumentDefinition { definition: u64 },
    ChannelDefinition { channel: ChannelId, definition: u64 },
    LegacyMappingComponent { channel: ChannelId, component: SourceMappingComponent },
    LegacyMappingPlacement { channel: ChannelId, placement: SourcePlacement },
    ModeledMappingComponent { channel: ChannelId, component: SourceMappingComponent },
    ModeledMappingPlacement { channel: ChannelId, placement: SourcePlacement },
    ModeledMappingInverted { channel: ChannelId, inverted: bool },
    ModeledMappingGain { channel: ChannelId },
    ModeledMappingBias { channel: ChannelId },
    SampledPaint { channel: ChannelId },
    SolidPaint { channel: ChannelId },
    Definition(DefinitionEditRoute),
}

/// The message `Expected a finite numeric value.`
pub open spec fn not_number_text() -> Seq<char> {
    "Expected a finite numeric value."@
}

fn not_number() -> (message: String)
    ensures
        message@ == not_number_text(),
{
    "Expected a finite numeric value.".to_owned()
}

/// The message `Expected a whole number.`
pub open spec fn not_count_text() -> Seq<char> {
    "Expected a whole number."@
}

fn not_count() -> (message: String)
    ensures
        message@ == not_count_text(),
{
    "Expected a whole number.".to_owned()
}

/// The message `Expected a Boolean value.`
pub open spec fn not_boolean_text() -> Seq<char> {
    "Expected a Boolean value."@
}

fn not_boolean() -> (message: String)
    ensures
        message@ == not_boolean_text(),
{
    "Expected a Boolean value.".to_owned()
}

/// The message `Expected a typed choice.`
pub open spec fn not_choice_text() -> Seq<char> {
    "Expected a typed choice."@
}

fn not_choice() -> (message: String)
    ensures
        message@ == not_choice_text(),
{
    "Expected a typed choice.".to_owned()
}

/// The message `Expected a stable reference.`
pub open spec fn not_reference_text() -> Seq<char> {
    "Expected a stable reference."@
}

fn not_reference() -> (message: String)
    ensures
        message@ == not_reference_text(),
{
    "Expected a stable reference.".to_owned()
}

/// The message `This field requires a selected channel.`
pub open spec fn no_channel_text() -> Seq<char> {
    "This field requires a selected channel."@
}

fn no_channel() -> (message: String)
    ensures
        message@ == no_channel_text(),
{
    "This field requires a selected channel.".to_owned()
}

/// The message `This field requires an active mechanism.`
pub open spec fn no_mechanism_text() -> Seq<char> {
    "This field requires an active mechanism."@
}

fn no_mechanism() -> (message: String)
    ensures
        message@ == no_mechanism_text(),
{
    "This field requires an active mechanism.".to_owned()
}

/// The message `This field requires an active output layer.`
pub open spec fn no_output_layer_text() -> Seq<char> {
    "This field requires an active output layer."@
}

fn no_output_layer() -> (message: String)
    ensures
        message@ == no_output_layer_text(),
{
    "This field requires an active output layer.".to_owned()
}

/// The message `Guide dimension target is required.`
pub open spec fn no_dimension_text() -> Seq<char> {
    "Guide dimension target is required."@
}

fn no_dimension() -> (message: String)
    ensures
        message@ == no_dimension_text(),
{
    "Guide dimension target is required.".to_owned()
}

/// The message `This field is not structural.`
pub open spec fn not_structural_text() -> Seq<char> {
    "This field is not structural."@
}

fn not_structural() -> (message: String)
    ensures
        message@ == not_structural_text(),
{
    "This field is not structural.".to_owned()
}

/// The message `This compound selector requires the visible transition draft and confirmation.`
pub open spec fn compound_text() -> Seq<char> {
    "This compound selector requires the visible transition draft and confirmation."@
}

fn compound() -> (message: String)
    ensures
        message@ == compound_text(),
{
    "This compound selector requires the visible transition draft and confirmation.".to_owned()
}

/// The message `Expected an ordered stable-reference collection.`
pub open spec fn not_collection_text() -> Seq<char> {
    "Expected an ordered stable-reference collection."@
}

fn not_collection() -> (message: String)
    ensures
        message@ == not_collection_text(),
{
    "Expected an ordered stable-reference collection.".to_owned()
}

/// The message `Expected guide dimension references.`
pub open spec fn not_dimensions_text() -> Seq<char> {
    "Expected guide dimension references."@
}

fn not_dimensions() -> (message: String)
    ensures
        message@ == not_dimensions_text(),
{
    "Expected guide dimension references.".to_owned()
}

/// The message `This active descriptor has no compatible Stage 18 route.`
pub open spec fn no_route_text() -> Seq<char> {
    "This active descriptor has no compatible Stage 18 route."@
}

fn no_route() -> (message: String)
    ensures
        message@ == no_route_text(),
{
    "This active descriptor has no compatible Stage 18 route.".to_owned()
}

/// The message `Expected an output prototype choice.`
pub open spec fn not_prototype_text() -> Seq<char> {
    "Expected an output prototype choice."@
}

fn not_prototype() -> (message: String)
    ensures
        message@ == not_prototype_text(),
{
    "Expected an output prototype choice.".to_owned()
}

/// The message `The active definition is missing.`
pub open spec fn missing_definition_text() -> Seq<char> {
    "The active definition is missing."@
}

fn missing_definition() -> (message: String)
    ensures
        message@ == missing_definition_text(),
{
    "The active definition is missing.".to_owned()
}

/// The message `Select a channel before editing its definition.`
pub open spec fn select_channel_text() -> Seq<char> {
    "Select a channel before editing its definition."@
}

fn select_channel() -> (message: String)
    ensures
        message@ == select_channel_text(),
{
    "Select a channel before editing its definition.".to_owned()
}

/// The message `Density requires document or channel authority.`
pub open spec fn density_authority_text() -> Seq<char> {
    "Density requires document or channel authority."@
}

fn density_authority() -> (message: String)
    ensures
        message@ == density_authority_text(),
{
    "Density requires document or channel authority.".to_owned()
}

/// The message `Pattern rotation requires document or channel authority.`
pub open spec fn rotation_authority_text() -> Seq<char> {
    "Pattern rotation requires document or channel authority."@
}

fn rotation_authority() -> (message: String)
    ensures
        message@ == rotation_authority_text(),
{
    "Pattern rotation requires document or channel authority.".to_owned()
}

/// The message `Mark response requires document or channel authority.`
pub open spec fn mark_authority_text() -> Seq<char> {
    "Mark response requires document or channel authority."@
}

fn mark_authority() -> (message: String)
    ensures
        message@ == mark_authority_text(),
{
    "Mark response requires document or channel authority.".to_owned()
}

/// The message `Connected response requires document or channel authority.`
pub open spec fn connected_authority_text() -> Seq<char> {
    "Connected response requires document or channel authority."@
}

fn connected_authority() -> (message: String)
    ensures
        message@ == connected_authority_text(),
{
    "Connected response requires document or channel authority.".to_owned()
}

/// The message `Shape rotation requires document or channel authority.`
pub open spec fn shape_authority_text() -> Seq<char> {
    "Shape rotation requires document or channel authority."@
}

fn shape_authority() -> (message: String)
    ensures
        message@ == shape_authority_text(),
{
    "Shape rotation requires document or channel authority.".to_owned()
}

/// The message `Expected a source reference.`
pub open spec fn not_source_text() -> Seq<char> {
    "Expected a source reference."@
}

fn not_source() -> (message: String)
    ensures
        message@ == not_source_text(),
{
    "Expected a source reference.".to_owned()
}

/// The message `Definition selection requires document or channel authority.`
pub open spec fn definition_authority_text() -> Seq<char> {
    "Definition selection requires document or channel authority."@
}

fn definition_authority() -> (message: String)
    ensures
        message@ == definition_authority_text(),
{
    "Definition selection requires document or channel authority.".to_owned()
}

/// The message `Expected a pattern definition reference.`
pub open spec fn not_definition_text() -> Seq<char> {
    "Expected a pattern definition reference."@
}

fn not_definition() -> (message: String)
    ensures
        message@ == not_definition_text(),
{
    "Expected a pattern definition reference.".to_owned()
}

/// The message `Legacy mapping supports Luminance or Alpha.`
pub open spec fn legacy_component_text() -> Seq<char> {
    "Legacy mapping supports Luminance or Alpha."@
}

fn legacy_component() -> (message: String)
    ensures
        message@ == legacy_component_text(),
{
    "Legacy mapping supports Luminance or Alpha.".to_owned()
}

/// The message `Expected a mapping component.`
pub open spec fn not_mapping_component_text() -> Seq<char> {
    "Expected a mapping component."@
}

fn not_mapping_component() -> (message: String)
    ensures
        message@ == not_mapping_component_text(),
{
    "Expected a mapping component.".to_owned()
}

/// The message `Expected a mapping placement.`
pub open spec fn not_mapping_placement_text() -> Seq<char> {
    "Expected a mapping placement."@
}

fn not_mapping_placement() -> (message: String)
    ensures
        message@ == not_mapping_placement_text(),
{
    "Expected a mapping placement.".to_owned()
}

/// The message `Expected a paint choice.`
pub open spec fn not_paint_text() -> Seq<char> {
    "Expected a paint choice."@
}

fn not_paint() -> (message: String)
    ensures
        message@ == not_paint_text(),
{
    "Expected a paint choice.".to_owned()
}

/// The message `Expected an offset-side choice.`
pub open spec fn not_offset_sides_text() -> Seq<char> {
    "Expected an offset-side choice."@
}

fn not_offset_sides() -> (message: String)
    ensures
        message@ == not_offset_sides_text(),
{
    "Expected an offset-side choice.".to_owned()
}

/// The message `Expected an offset-cleanup choice.`
pub open spec fn not_offset_cleanup_text() -> Seq<char> {
    "Expected an offset-cleanup choice."@
}

fn not_offset_cleanup() -> (message: String)
    ensures
        message@ == not_offset_cleanup_text(),
{
    "Expected an offset-cleanup choice.".to_owned()
}

/// The message `Expected an artwork response choice.`
pub open spec fn not_response_text() -> Seq<char> {
    "Expected an artwork response choice."@
}

fn not_response() -> (message: String)
    ensures
        message@ == not_response_text(),
{
    "Expected an artwork response choice.".to_owned()
}

/// The message `Expected a visible-mark sizing choice.`
pub open spec fn not_sizing_text() -> Seq<char> {
    "Expected a visible-mark sizing choice."@
}

fn not_sizing() -> (message: String)
    ensures
        message@ == not_sizing_text(),
{
    "Expected a visible-mark sizing choice.".to_owned()
}

/// The message `Expected a site-product mechanism reference.`
pub open spec fn not_site_product_text() -> Seq<char> {
    "Expected a site-product mechanism reference."@
}

fn not_site_product() -> (message: String)
    ensures
        message@ == not_site_product_text(),
{
    "Expected a site-product mechanism reference.".to_owned()
}

/// The message `Expected a guide dimension reference.`
pub open spec fn not_dimension_reference_text() -> Seq<char> {
    "Expected a guide dimension reference."@
}

fn not_dimension_reference() -> (message: String)
    ensures
        message@ == not_dimension_reference_text(),
{
    "Expected a guide dimension reference.".to_owned()
}
/// How a structural field takes its value and target.
#[derive(Clone, Copy, Debug, PartialEq, Eq, Structural)]
pub enum StructuralKind {
    Coverage,
    GuideNumber,
    GuideChoice,
    MechanismNumber,
    MechanismCount,
    MechanismFlag,
    MechanismChoice,
    OutputReference,
    OutputPrototype,
    Compound,
    DimensionList,
    Unrouted,
}

/// The kind of a structural field.
pub open spec fn structural_kind(field: PropertyFieldId) -> StructuralKind {
    match field {
        PropertyFieldId::CoverageGuardSteps | PropertyFieldId::CoverageAdditionalMargin =>
            StructuralKind::Coverage,
        PropertyFieldId::GuideBaselineAngle
        | PropertyFieldId::GuidePhase
        | PropertyFieldId::GuideSpacingMultiplier
        | PropertyFieldId::GuideOffsetSpacing => StructuralKind::GuideNumber,
        PropertyFieldId::GuideOffsetSides | PropertyFieldId::GuideOffsetCleanup =>
            StructuralKind::GuideChoice,
        PropertyFieldId::IntersectionMergeEpsilon
        | PropertyFieldId::AlongGuideIntervalMultiplier
        | PropertyFieldId::AlongGuidePhase
        | PropertyFieldId::RandomEvenMinimumCenterDistance
        | PropertyFieldId::RandomClusterDensity
        | PropertyFieldId::RandomClusterSpread
        | PropertyFieldId::RandomClusterStrength
        | PropertyFieldId::ArtworkWeightMappingGain
        | PropertyFieldId::ArtworkWeightMappingBias
        | PropertyFieldId::ArtworkWeightStrength
        | PropertyFieldId::ExclusionMinimumCenterDistance
        | PropertyFieldId::VisibleMarkMargin => StructuralKind::MechanismNumber,
        PropertyFieldId::RandomSeed
        | PropertyFieldId::RandomMaximumAttempts
        | PropertyFieldId::RandomMaximumNeighborChecks => StructuralKind::MechanismCount,
        PropertyFieldId::ArtworkWeightMappingInverted => StructuralKind::MechanismFlag,
        PropertyFieldId::ArtworkWeightMappingComponent
        | PropertyFieldId::ArtworkWeightMappingPlacement
        | PropertyFieldId::ArtworkWeightResponse
        | PropertyFieldId::VisibleMarkSizingPolicy => StructuralKind::MechanismChoice,
        PropertyFieldId::OutputSiteProduct | PropertyFieldId::OutputOrientationDimension =>
            StructuralKind::OutputReference,
        PropertyFieldId::OutputPrototype => StructuralKind::OutputPrototype,
        PropertyFieldId::RandomCharacter
        | PropertyFieldId::RandomDensityModulation
        | PropertyFieldId::RandomExclusion
        | PropertyFieldId::OutputOrientation => StructuralKind::Compound,
        PropertyFieldId::IntersectionDimensions | PropertyFieldId::AlongGuideDimensions =>
            StructuralKind::DimensionList,
        _ => StructuralKind::Unrouted,
    }
}

fn structural_kind_of(field: PropertyFieldId) -> (kind: StructuralKind)
    ensures
        kind == structural_kind(field),
{
    match field {
        PropertyFieldId::CoverageGuardSteps | PropertyFieldId::CoverageAdditionalMargin =>
            StructuralKind::Coverage,
        PropertyFieldId::GuideBaselineAngle
        | PropertyFieldId::GuidePhase
        | PropertyFieldId::GuideSpacingMultiplier
        | PropertyFieldId::GuideOffsetSpacing => StructuralKind::GuideNumber,
        PropertyFieldId::GuideOffsetSides | PropertyFieldId::GuideOffsetCleanup =>
            StructuralKind::GuideChoice,
        PropertyFieldId::IntersectionMergeEpsilon
        | PropertyFieldId::AlongGuideIntervalMultiplier
        | PropertyFieldId::AlongGuidePhase
        | PropertyFieldId::RandomEvenMinimumCenterDistance
        | PropertyFieldId::RandomClusterDensity
        | PropertyFieldId::RandomClusterSpread
        | PropertyFieldId::RandomClusterStrength
        | PropertyFieldId::ArtworkWeightMappingGain
        | PropertyFieldId::ArtworkWeightMappingBias
        | PropertyFieldId::ArtworkWeightStrength
        | PropertyFieldId::ExclusionMinimumCenterDistance
        | PropertyFieldId::VisibleMarkMargin => StructuralKind::MechanismNumber,
        PropertyFieldId::RandomSeed
        | PropertyFieldId::RandomMaximumAttempts
        | PropertyFieldId::RandomMaximumNeighborChecks => StructuralKind::MechanismCount,
        PropertyFieldId::ArtworkWeightMappingInverted => StructuralKind::MechanismFlag,
        PropertyFieldId::ArtworkWeightMappingComponent
        | PropertyFieldId::ArtworkWeightMappingPlacement
        | PropertyFieldId::ArtworkWeightResponse
        | PropertyFieldId::VisibleMarkSizingPolicy => StructuralKind::MechanismChoice,
        PropertyFieldId::OutputSiteProduct | PropertyFieldId::OutputOrientationDimension =>
            StructuralKind::OutputReference,
        PropertyFieldId::OutputPrototype => StructuralKind::OutputPrototype,
        PropertyFieldId::RandomCharacter
        | PropertyFieldId::RandomDensityModulation
        | PropertyFieldId::RandomExclusion
        | PropertyFieldId::OutputOrientation => StructuralKind::Compound,
        PropertyFieldId::IntersectionDimensions | PropertyFieldId::AlongGuideDimensions =>
            StructuralKind::DimensionList,
        _ => StructuralKind::Unrouted,
    }
}

/// The choice fits a choice-valued structural field.
pub open spec fn choice_fits(field: PropertyFieldId, choice: PropertyEnumChoice) -> bool {
    match field {
        PropertyFieldId::GuideOffsetSides => choice is OffsetSides,
        PropertyFieldId::GuideOffsetCleanup => choice is OffsetCleanup,
        PropertyFieldId::ArtworkWeightMappingComponent => choice is SourceMappingComponent,
        PropertyFieldId::ArtworkWeightMappingPlacement => choice is SourcePlacement,
        PropertyFieldId::ArtworkWeightResponse => choice is ArtworkWeightResponse,
        PropertyFieldId::VisibleMarkSizingPolicy => choice is VisibleMarkSizingPolicy,
        _ => false,
    }
}

fn choice_fits_field(field: PropertyFieldId, choice: PropertyEnumChoice) -> (fits: bool)
    ensures
        fits == choice_fits(field, choice),
{
    match (field, choice) {
        (PropertyFieldId::GuideOffsetSides, PropertyEnumChoice::OffsetSides(_)) => true,
        (PropertyFieldId::GuideOffsetCleanup, PropertyEnumChoice::OffsetCleanup(_)) => true,
        (
            PropertyFieldId::ArtworkWeightMappingComponent,
            PropertyEnumChoice::SourceMappingComponent(_),
        ) => true,
        (PropertyFieldId::ArtworkWeightMappingPlacement, PropertyEnumChoice::SourcePlacement(_)) =>
            true,
        (PropertyFieldId::ArtworkWeightResponse, PropertyEnumChoice::ArtworkWeightResponse(_)) =>
            true,
        (PropertyFieldId::VisibleMarkSizingPolicy, PropertyEnumChoice::VisibleMarkSizingPolicy(_)) =>
            true,
        _ => false,
    }
}

/// The message for a choice that does not fit a choice-valued field.
pub open spec fn wrong_choice_text(field: PropertyFieldId) -> Seq<char> {
    match field {
        PropertyFieldId::GuideOffsetSides => not_offset_sides_text(),
        PropertyFieldId::GuideOffsetCleanup => not_offset_cleanup_text(),
        PropertyFieldId::ArtworkWeightMappingComponent => not_mapping_component_text(),
        PropertyFieldId::ArtworkWeightMappingPlacement => not_mapping_placement_text(),
        PropertyFieldId::ArtworkWeightResponse => not_response_text(),
        _ => not_sizing_text(),
    }
}

fn wrong_choice(field: PropertyFieldId) -> (message: String)
    ensures
        message@ == wrong_choice_text(field),
{
    match field {
        PropertyFieldId::GuideOffsetSides => not_offset_sides(),
        PropertyFieldId::GuideOffsetCleanup => not_offset_cleanup(),
        PropertyFieldId::ArtworkWeightMappingComponent => not_mapping_component(),
        PropertyFieldId::ArtworkWeightMappingPlacement => not_mapping_placement(),
        PropertyFieldId::ArtworkWeightResponse => not_response(),
        _ => not_sizing(),
    }
}

/// The value a reference gives a reference-valued output field, if it fits.
pub open spec fn reference_value(field: PropertyFieldId, reference: PropertyReferenceValue) -> Option<
    EditValue,
> {
    match (field, reference) {
        (PropertyFieldId::OutputSiteProduct, PropertyReferenceValue::Mechanism(id)) => Some(
            EditValue::MechanismReference(id),
        ),
        (PropertyFieldId::OutputOrientationDimension, PropertyReferenceValue::GuideDimension(id)) =>
            Some(EditValue::DimensionReference(id)),
        _ => None,
    }
}

/// The mechanism a target addresses.
pub open spec fn mechanism_of(target: PropertyTarget) -> Option<u64> {
    match target {
        PropertyTarget::Mechanism(_, m) => Some(m),
        PropertyTarget::GuideDimension(_, m, _) => Some(m),
        _ => None,
    }
}

/// The guide dimension a target addresses.
pub open spec fn dimension_of(target: PropertyTarget) -> Option<u64> {
    match target {
        PropertyTarget::GuideDimension(_, _, g) => Some(g),
        _ => None,
    }
}

/// The output layer a target addresses.
pub open spec fn output_layer_of(target: PropertyTarget) -> Option<u64> {
    match target {
        PropertyTarget::OutputLayer(_, o) => Some(o),
        _ => None,
    }
}

/// Every reference is a guide dimension.
pub open spec fn all_guide_dimensions(references: Seq<PropertyReferenceValue>) -> bool {
    forall|i: int| 0 <= i < references.len() ==> (#[trigger] references[i]) is GuideDimension
}

/// The value of a numeric input.
pub open spec fn number_value(input: InspectorInput) -> Result<EditValue, Seq<char>> {
    match input {
        InspectorInput::Number { finite } => if finite {
            Ok(EditValue::Number)
        } else {
            Err(not_number_text())
        },
        _ => Err(not_number_text()),
    }
}

fn number_of(input: &InspectorInput) -> (value: Result<EditValue, String>)
    ensures
        result_is(value, number_value(*input)),
{
    match input {
        InspectorInput::Number { finite: true } => Ok(EditValue::Number),
        _ => Err(not_number()),
    }
}

/// The value of a whole-number input.
pub open spec fn count_value(input: InspectorInput) -> Result<EditValue, Seq<char>> {
    match input {
        InspectorInput::WholeNumber(n) => Ok(EditValue::Count(n)),
        _ => Err(not_count_text()),
    }
}

fn count_of(input: &InspectorInput) -> (value: Result<EditValue, String>)
    ensures
        result_is(value, count_value(*input)),
{
    match input {
        InspectorInput::WholeNumber(n) => Ok(EditValue::Count(*n)),
        _ => Err(not_count()),
    }
}

/// The value of a Boolean input.
pub open spec fn flag_value(input: InspectorInput) -> Result<EditValue, Seq<char>> {
    match input {
        InspectorInput::Boolean(b) => Ok(EditValue::Flag(b)),
        _ => Err(not_boolean_text()),
    }
}

fn flag_of(input: &InspectorInput) -> (value: Result<EditValue, String>)
    ensures
        result_is(value, flag_value(*input)),
{
    match input {
        InspectorInput::Boolean(b) => Ok(EditValue::Flag(*b)),
        _ => Err(not_boolean()),
    }
}

/// A route with the given addresses.
pub open spec fn edit_route(
    definition: u64,
    field: PropertyFieldId,
    mechanism: Option<u64>,
    dimension: Option<u64>,
    output_layer: Option<u64>,
    value: EditValue,
) -> DefinitionEditRoute {
    DefinitionEditRoute { definition, field, mechanism, dimension, output_layer, value }
}

/// `value` addressed to the target's mechanism, which must exist.
pub open spec fn at_mechanism(
    definition: u64,
    field: PropertyFieldId,
    target: PropertyTarget,
    value: Result<EditValue, Seq<char>>,
) -> Result<DefinitionEditRoute, Seq<char>> {
    match mechanism_of(target) {
        None => Err(no_mechanism_text()),
        Some(m) => match value {
            Ok(v) => Ok(edit_route(definition, field, Some(m), None, None, v)),
            Err(e) => Err(e),
        },
    }
}

/// `value` addressed to the target's mechanism and guide dimension, which
/// must both exist.
pub open spec fn at_dimension(
    definition: u64,
    field: PropertyFieldId,
    target: PropertyTarget,
    value: Result<EditValue, Seq<char>>,
) -> Result<DefinitionEditRoute, Seq<char>> {
    match mechanism_of(target) {
        None => Err(no_mechanism_text()),
        Some(m) => match dimension_of(target) {
            None => Err(no_dimension_text()),
            Some(g) => match value {
                Ok(v) => Ok(edit_route(definition, field, Some(m), Some(g), None, v)),
                Err(e) => Err(e),
            },
        },
    }
}

/// The definition edit a structural input asks for, or why it cannot be
/// made.
pub open spec fn structural_route(descriptor: PropertyDescriptor, input: InspectorInput) -> Result<
    DefinitionEditRoute,
    Seq<char>,
> {
    let field = descriptor.field;
    let target = descriptor.target;
    match definition_of(target) {
        None => Err(not_structural_text()),
        Some(def) => match structural_kind(field) {
            StructuralKind::Coverage => match (if field == PropertyFieldId::CoverageGuardSteps {
                count_value(input)
            } else {
                number_value(input)
            }) {
                Ok(v) => Ok(edit_route(def, field, None, None, None, v)),
                Err(e) => Err(e),
            },
            StructuralKind::GuideNumber => at_dimension(def, field, target, number_value(input)),
            StructuralKind::GuideChoice => match input {
                InspectorInput::Choice(c) => if choice_fits(field, c) {
                    at_dimension(def, field, target, Ok(EditValue::Choice(c)))
                } else {
                    Err(wrong_choice_text(field))
                },
                _ => Err(not_choice_text()),
            },
            StructuralKind::MechanismNumber => at_mechanism(def, field, target, number_value(input)),
            StructuralKind::MechanismCount => at_mechanism(def, field, target, count_value(input)),
            StructuralKind::MechanismFlag => at_mechanism(def, field, target, flag_value(input)),
            StructuralKind::MechanismChoice => match input {
                InspectorInput::Choice(c) => if choice_fits(field, c) {
                    at_mechanism(def, field, target, Ok(EditValue::Choice(c)))
                } else {
                    Err(wrong_choice_text(field))
                },
                _ => Err(not_choice_text()),
            },
            StructuralKind::OutputReference => match input {
                InspectorInput::Reference(r) => match reference_value(field, r) {
                    Some(v) => match output_layer_of(target) {
                        Some(o) => Ok(edit_route(def, field, None, None, Some(o), v)),
                        None => Err(no_output_layer_text()),
                    },
                    None => Err(
                        if field == PropertyFieldId::OutputSiteProduct {
                            not_site_product_text()
                        } else {
                            not_dimension_reference_text()
                        },
                    ),
                },
                _ => Err(not_reference_text()),
            },
            StructuralKind::OutputPrototype => match input {
                InspectorInput::Choice(c) => if c is MarkPrototype {
                    match output_layer_of(target) {
                        Some(o) => Ok(
                            edit_route(def, field, None, None, Some(o), EditValue::CirclePrototype),
                        ),
                        None => Err(no_output_layer_text()),
                    }
                } else {
                    Err(not_prototype_text())
                },
                _ => Err(not_choice_text()),
            },
            StructuralKind::Compound => Err(compound_text()),
            StructuralKind::DimensionList => match input {
                InspectorInput::ReferenceCollection(references) => if all_guide_dimensions(
                    references@,
                ) {
                    at_mechanism(def, field, target, Ok(EditValue::Dimensions))
                } else {
                    Err(not_dimensions_text())
                },
                _ => Err(not_collection_text()),
            },
            StructuralKind::Unrouted => Err(no_route_text()),
        },
    }
}

/// Returns the guide dimensions of a reference collection, in order, or the
/// message for a collection holding another kind of reference.
pub fn guide_dimension_ids(references: &[PropertyReferenceValue]) -> (ids: Result<Vec<u64>, String>)
    ensures
        match ids {
            Ok(v) => all_guide_dimensions(references@) && v@.len() == references@.len() && forall|
                i: int,
            |
                0 <= i < v@.len() ==> references@[i] == PropertyReferenceValue::GuideDimension(
                    #[trigger] v@[i],
                ),
            Err(e) => !all_guide_dimensions(references@) && e@ == not_dimensions_text(),
        },
{
    let mut ids: Vec<u64> = Vec::new();
    let mut i: usize = 0;
    while i < references.len()
        invariant
            0 <= i <= references@.len(),
            ids@.len() == i,
            forall|k: int|
                0 <= k < i ==> references@[k] == PropertyReferenceValue::GuideDimension(
                    #[trigger] ids@[k],
                ),
        decreases references@.len() - i,
    {
        match references[i] {
            PropertyReferenceValue::GuideDimension(id) => ids.push(id),
            _ => {
                assert(!(references@[i as int] is GuideDimension));
                return Err(not_dimensions());
            },
        }
        i = i + 1;
    }
    assert forall|k: int| 0 <= k < references@.len() implies (#[trigger] references@[k]) is GuideDimension by {
        assert(references@[k] == PropertyReferenceValue::GuideDimension(ids@[k]));
    }
    Ok(ids)
}

/// Routes one structural input to the definition edit it asks for: the
/// target must address the definition and, per field, the mechanism, guide
/// dimension or output layer the edit needs, and the input must have the
/// field's kind. A compound selector never edits directly.
pub fn structural_command_route(descriptor: &PropertyDescriptor, input: &InspectorInput) -> (route:
    Result<DefinitionEditRoute, String>)
    ensures
        result_is(route, structural_route(*descriptor, *input)),
{
    let field = descriptor.field;
    let target = descriptor.target;
    let def = match crate::inspector::target_definition_id(target) {
        Some(d) => d,
        None => return Err(not_structural()),
    };
    let mechanism = crate::inspector::target_mechanism_id(target);
    let dimension = match target {
        PropertyTarget::GuideDimension(_, _, g) => Some(g),
        _ => None,
    };
    let output_layer = crate::inspector::target_output_layer_id(target);
    match structural_kind_of(field) {
        StructuralKind::Coverage => {
            let value = if field == PropertyFieldId::CoverageGuardSteps {
                count_of(input)?
            } else {
                number_of(input)?
            };
            Ok(DefinitionEditRoute { definition: def, field, mechanism: None, dimension: None, output_layer: None, value })
        },
        StructuralKind::GuideNumber => {
            let m = match mechanism {
                Some(m) => m,
                None => return Err(no_mechanism()),
            };
            let g = match dimension {
                Some(g) => g,
                None => return Err(no_dimension()),
            };
            let value = number_of(input)?;
            Ok(DefinitionEditRoute { definition: def, field, mechanism: Some(m), dimension: Some(g), output_layer: None, value })
        },
        StructuralKind::GuideChoice => {
            let c = match input {
                InspectorInput::Choice(c) => *c,
                _ => return Err(not_choice()),
            };
            if !choice_fits_field(field, c) {
                return Err(wrong_choice(field));
            }
            let m = match mechanism {
                Some(m) => m,
                None => return Err(no_mechanism()),
            };
            let g = match dimension {
                Some(g) => g,
                None => return Err(no_dimension()),
            };
            Ok(DefinitionEditRoute { definition: def, field, mechanism: Some(m), dimension: Some(g), output_layer: None, value: EditValue::Choice(c) })
        },
        StructuralKind::MechanismNumber | StructuralKind::MechanismCount | StructuralKind::MechanismFlag => {
            let m = match mechanism {
                Some(m) => m,
                None => return Err(no_mechanism()),
            };
            let value = match structural_kind_of(field) {
                StructuralKind::MechanismNumber => number_of(input)?,
                StructuralKind::MechanismCount => count_of(input)?,
                _ => flag_of(input)?,
            };
            Ok(DefinitionEditRoute { definition: def, field, mechanism: Some(m), dimension: None, output_layer: None, value })
        },
        StructuralKind::MechanismChoice => {
            let c = match input {
                InspectorInput::Choice(c) => *c,
                _ => return Err(not_choice()),
            };
            if !choice_fits_field(field, c) {
                return Err(wrong_choice(field));
            }
            let m = match mechanism {
                Some(m) => m,
                None => return Err(no_mechanism()),
            };
            Ok(DefinitionEditRoute { definition: def, field, mechanism: Some(m), dimension: None, output_layer: None, value: EditValue::Choice(c) })
        },
        StructuralKind::OutputReference => {
            let r = match input {
                InspectorInput::Reference(r) => *r,
                _ => return Err(not_reference()),
            };
            let value = match (field, r) {
                (PropertyFieldId::OutputSiteProduct, PropertyReferenceValue::Mechanism(id)) =>
                    EditValue::MechanismReference(id),
                (PropertyFieldId::OutputOrientationDimension, PropertyReferenceValue::GuideDimension(id)) =>
                    EditValue::DimensionReference(id),
                _ => {
                    return Err(
                        if field == PropertyFieldId::OutputSiteProduct {
                            not_site_product()
                        } else {
                            not_dimension_reference()
                        },
                    );
                },
            };
            match output_layer {
                Some(o) => Ok(DefinitionEditRoute { definition: def, field, mechanism: None, dimension: None, output_layer: Some(o), value }),
                None => Err(no_output_layer()),
            }
        },
        StructuralKind::OutputPrototype => {
            let c = match input {
                InspectorInput::Choice(c) => *c,
                _ => return Err(not_choice()),
            };
            match c {
                PropertyEnumChoice::MarkPrototype(_) => {},
                _ => return Err(not_prototype()),
            }
            match output_layer {
                Some(o) => Ok(DefinitionEditRoute { definition: def, field, mechanism: None, dimension: None, output_layer: Some(o), value: EditValue::CirclePrototype }),
                None => Err(no_output_layer()),
            }
        },
        StructuralKind::Compound => Err(compound()),
        StructuralKind::DimensionList => {
            let references = match input {
                InspectorInput::ReferenceCollection(references) => references,
                _ => return Err(not_collection()),
            };
            let checked = guide_dimension_ids(references.as_slice());
            if checked.is_err() {
                return Err(not_dimensions());
            }
            match mechanism {
                Some(m) => Ok(DefinitionEditRoute { definition: def, field, mechanism: Some(m), dimension: None, output_layer: None, value: EditValue::Dimensions }),
                None => Err(no_mechanism()),
            }
        },
        StructuralKind::Unrouted => Err(no_route()),
    }
}

/// The channel a definition edit applies to, once the addressed definition
/// was looked up: a missing definition is reported first, then a missing
/// channel selection.
pub open spec fn definition_edit_channel_spec(selected: Option<ChannelId>, definition_found: bool) -> Result<
    ChannelId,
    Seq<char>,
> {
    if !definition_found {
        Err(missing_definition_text())
    } else {
        match selected {
            Some(c) => Ok(c),
            None => Err(select_channel_text()),
        }
    }
}

/// Returns the channel a definition edit applies to.
pub fn definition_edit_channel(selected: Option<ChannelId>, definition_found: bool) -> (channel:
    Result<ChannelId, String>)
    ensures
        result_is(channel, definition_edit_channel_spec(selected, definition_found)),
{
    if !definition_found {
        return Err(missing_definition());
    }
    match selected {
        Some(c) => Ok(c),
        None => Err(select_channel()),
    }
}

/// The channel a target names.
pub open spec fn channel_of(target: PropertyTarget) -> Option<ChannelId> {
    match target {
        PropertyTarget::Channel(c) => Some(c),
        _ => None,
    }
}

/// The input is a finite number.
pub open spec fn is_finite_number(input: InspectorInput) -> bool {
    input matches InspectorInput::Number { finite } && finite
}

/// `route` for the target's channel, which must exist, after a finite number.
pub open spec fn channel_number(
    target: PropertyTarget,
    input: InspectorInput,
    route: spec_fn(ChannelId) -> InspectorCommandRoute,
) -> Result<InspectorCommandRoute, Seq<char>> {
    match channel_of(target) {
        None => Err(no_channel_text()),
        Some(c) => if is_finite_number(input) {
            Ok(route(c))
        } else {
            Err(not_number_text())
        },
    }
}

/// The command an inspector input asks for, or why it cannot be made.
pub open spec fn inspector_route(descriptor: PropertyDescriptor, input: InspectorInput) -> Result<
    InspectorCommandRoute,
    Seq<char>,
> {
    let field = descriptor.field;
    let target = descriptor.target;
    match field {
        PropertyFieldId::DensityAcrossX | PropertyFieldId::DensityAcrossY => {
            let axis = if field == PropertyFieldId::DensityAcrossX {
                DensityAxis::AcrossX
            } else {
                DensityAxis::AcrossY
            };
            if !is_finite_number(input) {
                Err(not_number_text())
            } else {
                match target {
                    PropertyTarget::Document => Ok(InspectorCommandRoute::DocumentDensity { axis }),
                    PropertyTarget::Channel(c) => Ok(
                        InspectorCommandRoute::ChannelDensity { channel: c, axis },
                    ),
                    _ => Err(density_authority_text()),
                }
            }
        },
        PropertyFieldId::DensityAspectLocked => match input {
            InspectorInput::Boolean(b) => Ok(InspectorCommandRoute::DocumentAspectLock { locked: b }),
            _ => Err(not_boolean_text()),
        },
        PropertyFieldId::RotationDegrees => if !is_finite_number(input) {
            Err(not_number_text())
        } else {
            match target {
                PropertyTarget::Document => Ok(InspectorCommandRoute::DocumentRotation),
                PropertyTarget::Channel(c) => Ok(InspectorCommandRoute::ChannelRotation { channel: c }),
                _ => Err(rotation_authority_text()),
            }
        },
        PropertyFieldId::TranslationX => channel_number(
            target,
            input,
            |c: ChannelId| InspectorCommandRoute::Translation { channel: c, axis: TranslationAxis::X },
        ),
        PropertyFieldId::TranslationY => channel_number(
            target,
            input,
            |c: ChannelId| InspectorCommandRoute::Translation { channel: c, axis: TranslationAxis::Y },
        ),
        PropertyFieldId::MarkMinimumFill | PropertyFieldId::MarkMaximumFill => if !is_finite_number(
            input,
        ) {
            Err(not_number_text())
        } else {
            match target {
                PropertyTarget::ChannelOutput(c, o) => Ok(
                    InspectorCommandRoute::MarkFill {
                        channel: c,
                        output_layer: o,
                        minimum: field == PropertyFieldId::MarkMinimumFill,
                    },
                ),
                _ => Err(mark_authority_text()),
            }
        },
        PropertyFieldId::ConnectedMinimumThickness | PropertyFieldId::ConnectedMaximumThickness =>
            if !is_finite_number(input) {
            Err(not_number_text())
        } else {
            match target {
                PropertyTarget::ChannelOutput(c, o) => Ok(
                    InspectorCommandRoute::ConnectedThickness {
                        channel: c,
                        output_layer: o,
                        minimum: field == PropertyFieldId::ConnectedMinimumThickness,
                    },
                ),
                _ => Err(connected_authority_text()),
            }
        },
        PropertyFieldId::ShapeRotationDegrees => if !is_finite_number(input) {
            Err(not_number_text())
        } else {
            match target {
                PropertyTarget::Document => Ok(InspectorCommandRoute::DocumentShapeRotation),
                PropertyTarget::Channel(c) => Ok(
                    InspectorCommandRoute::ChannelShapeRotation { channel: c },
                ),
                _ => Err(shape_authority_text()),
            }
        },
        PropertyFieldId::ColorRed => channel_number(
            target,
            input,
            |c: ChannelId| InspectorCommandRoute::Color { channel: c, component: ColorComponent::Red },
        ),
        PropertyFieldId::ColorGreen => channel_number(
            target,
            input,
            |c: ChannelId| InspectorCommandRoute::Color { channel: c, component: ColorComponent::Green },
        ),
        PropertyFieldId::ColorBlue => channel_number(
            target,
            input,
            |c: ChannelId| InspectorCommandRoute::Color { channel: c, component: ColorComponent::Blue },
        ),
        PropertyFieldId::ColorAlpha => channel_number(
            target,
            input,
            |c: ChannelId| InspectorCommandRoute::Color { channel: c, component: ColorComponent::Alpha },
        ),
        PropertyFieldId::Opacity => channel_number(
            target,
            input,
            |c: ChannelId| InspectorCommandRoute::Opacity { channel: c },
        ),
        PropertyFieldId::Visibility => match channel_of(target) {
            None => Err(no_channel_text()),
            Some(c) => match input {
                InspectorInput::Boolean(b) => Ok(InspectorCommandRoute::Visibility { channel: c, visible: b }),
                _ => Err(not_boolean_text()),
            },
        },
        PropertyFieldId::SourceReference => match input {
            InspectorInput::Reference(PropertyReferenceValue::Source(s)) => Ok(
                InspectorCommandRoute::Source { source: s },
            ),
            InspectorInput::Reference(_) => Err(not_source_text()),
            _ => Err(not_reference_text()),
        },
        PropertyFieldId::DefinitionSelection => match input {
            InspectorInput::Reference(PropertyReferenceValue::Definition(id)) => match target {
                PropertyTarget::Document => Ok(InspectorCommandRoute::DocumentDefinition { definition: id }),
                PropertyTarget::Channel(c) => Ok(
                    InspectorCommandRoute::ChannelDefinition { channel: c, definition: id },
                ),
                _ => Err(definition_authority_text()),
            },
            InspectorInput::Reference(_) => Err(not_definition_text()),
            _ => Err(not_reference_text()),
        },
        PropertyFieldId::LegacyMappingComponent => match input {
            InspectorInput::Choice(PropertyEnumChoice::SourceMappingComponent(k)) => match channel_of(
                target,
            ) {
                None => Err(no_channel_text()),
                Some(c) => if k == SourceMappingComponent::Luminance || k == SourceMappingComponent::Alpha {
                    Ok(InspectorCommandRoute::LegacyMappingComponent { channel: c, component: k })
                } else {
                    Err(legacy_component_text())
                },
            },
            InspectorInput::Choice(_) => Err(not_mapping_component_text()),
            _ => Err(not_choice_text()),
        },
        PropertyFieldId::LegacyMappingPlacement => match input {
            InspectorInput::Choice(PropertyEnumChoice::SourcePlacement(p)) => match channel_of(target) {
                None => Err(no_channel_text()),
                Some(c) => Ok(InspectorCommandRoute::LegacyMappingPlacement { channel: c, placement: p }),
            },
            InspectorInput::Choice(_) => Err(not_mapping_placement_text()),
            _ => Err(not_choice_text()),
        },
        PropertyFieldId::ModeledMappingComponent => match input {
            InspectorInput::Choice(PropertyEnumChoice::SourceMappingComponent(k)) => match channel_of(
                target,
            ) {
                None => Err(no_channel_text()),
                Some(c) => Ok(InspectorCommandRoute::ModeledMappingComponent { channel: c, component: k }),
            },
            InspectorInput::Choice(_) => Err(not_mapping_component_text()),
            _ => Err(not_choice_text()),
        },
        PropertyFieldId::ModeledMappingPlacement => match input {
            InspectorInput::Choice(PropertyEnumChoice::SourcePlacement(p)) => match channel_of(target) {
                None => Err(no_channel_text()),
                Some(c) => Ok(InspectorCommandRoute::ModeledMappingPlacement { channel: c, placement: p }),
            },
            InspectorInput::Choice(_) => Err(not_mapping_placement_text()),
            _ => Err(not_choice_text()),
        },
        PropertyFieldId::ModeledMappingInverted => match channel_of(target) {
            None => Err(no_channel_text()),
            Some(c) => match input {
                InspectorInput::Boolean(b) => Ok(
                    InspectorCommandRoute::ModeledMappingInverted { channel: c, inverted: b },
                ),
                _ => Err(not_boolean_text()),
            },
        },
        PropertyFieldId::ModeledMappingGain => channel_number(
            target,
            input,
            |c: ChannelId| InspectorCommandRoute::ModeledMappingGain { channel: c },
        ),
        PropertyFieldId::ModeledMappingBias => channel_number(
            target,
            input,
            |c: ChannelId| InspectorCommandRoute::ModeledMappingBias { channel: c },
        ),
        PropertyFieldId::Paint => match input {
            InspectorInput::Choice(PropertyEnumChoice::Paint(kind)) => match channel_of(target) {
                None => Err(no_channel_text()),
                Some(c) => Ok(
                    match kind {
                        PaintKind::SampledSource => InspectorCommandRoute::SampledPaint { channel: c },
                        PaintKind::Solid => InspectorCommandRoute::SolidPaint { channel: c },
                    },
                ),
            },
            InspectorInput::Choice(_) => Err(not_paint_text()),
            _ => Err(not_choice_text()),
        },
        _ => match structural_route(descriptor, input) {
            Ok(r) => Ok(InspectorCommandRoute::Definition(r)),
            Err(e) => Err(e),
        },
    }
}

fn channel_required(target: PropertyTarget) -> (channel: Result<ChannelId, String>)
    ensures
        match channel_of(target) {
            Some(c) => channel == Ok::<ChannelId, String>(c),
            None => channel matches Err(e) && e@ == no_channel_text(),
        },
{
    match target {
        PropertyTarget::Channel(c) => Ok(c),
        _ => Err(no_channel()),
    }
}

fn finite_required(input: &InspectorInput) -> (ok: Result<(), String>)
    ensures
        is_finite_number(*input) ==> ok is Ok,
        !is_finite_number(*input) ==> (ok matches Err(e) && e@ == not_number_text()),
{
    match input {
        InspectorInput::Number { finite: true } => Ok(()),
        _ => Err(not_number()),
    }
}

fn boolean_required(input: &InspectorInput) -> (value: Result<bool, String>)
    ensures
        match *input {
            InspectorInput::Boolean(b) => value == Ok::<bool, String>(b),
            _ => value matches Err(e) && e@ == not_boolean_text(),
        },
{
    match input {
        InspectorInput::Boolean(b) => Ok(*b),
        _ => Err(not_boolean()),
    }
}

/// Routes one inspector input to the command it asks for: channel,
/// document and output fields go to their own authority, and every other
/// field is routed as a definition edit.
pub fn inspector_command_route(descriptor: &PropertyDescriptor, input: &InspectorInput) -> (route:
    Result<InspectorCommandRoute, String>)
    ensures
        result_is(route, inspector_route(*descriptor, *input)),
{
    let field = descriptor.field;
    let target = descriptor.target;
    match field {
        PropertyFieldId::DensityAcrossX | PropertyFieldId::DensityAcrossY => {
            let axis = if field == PropertyFieldId::DensityAcrossX {
                DensityAxis::AcrossX
            } else {
                DensityAxis::AcrossY
            };
            finite_required(input)?;
            match target {
                PropertyTarget::Document => Ok(InspectorCommandRoute::DocumentDensity { axis }),
                PropertyTarget::Channel(c) => Ok(InspectorCommandRoute::ChannelDensity { channel: c, axis }),
                _ => Err(density_authority()),
            }
        },
        PropertyFieldId::DensityAspectLocked => {
            let locked = boolean_required(input)?;
            Ok(InspectorCommandRoute::DocumentAspectLock { locked })
        },
        PropertyFieldId::RotationDegrees => {
            finite_required(input)?;
            match target {
                PropertyTarget::Document => Ok(InspectorCommandRoute::DocumentRotation),
                PropertyTarget::Channel(c) => Ok(InspectorCommandRoute::ChannelRotation { channel: c }),
                _ => Err(rotation_authority()),
            }
        },
        PropertyFieldId::TranslationX | PropertyFieldId::TranslationY => {
            let c = channel_required(target)?;
            finite_required(input)?;
            let axis = if field == PropertyFieldId::TranslationX {
                TranslationAxis::X
            } else {
                TranslationAxis::Y
            };
            Ok(InspectorCommandRoute::Translation { channel: c, axis })
        },
        PropertyFieldId::MarkMinimumFill | PropertyFieldId::MarkMaximumFill => {
            finite_required(input)?;
            match target {
                PropertyTarget::ChannelOutput(c, o) => Ok(
                    InspectorCommandRoute::MarkFill {
                        channel: c,
                        output_layer: o,
                        minimum: field == PropertyFieldId::MarkMinimumFill,
                    },
                ),
                _ => Err(mark_authority()),
            }
        },
        PropertyFieldId::ConnectedMinimumThickness | PropertyFieldId::ConnectedMaximumThickness => {
            finite_required(input)?;
            match target {
                PropertyTarget::ChannelOutput(c, o) => Ok(
                    InspectorCommandRoute::ConnectedThickness {
                        channel: c,
                        output_layer: o,
                        minimum: field == PropertyFieldId::ConnectedMinimumThickness,
                    },
                ),
                _ => Err(connected_authority()),
            }
        },
        PropertyFieldId::ShapeRotationDegrees => {
            finite_required(input)?;
            match target {
                PropertyTarget::Document => Ok(InspectorCommandRoute::DocumentShapeRotation),
                PropertyTarget::Channel(c) => Ok(InspectorCommandRoute::ChannelShapeRotation { channel: c }),
                _ => Err(shape_authority()),
            }
        },
        PropertyFieldId::ColorRed
        | PropertyFieldId::ColorGreen
        | PropertyFieldId::ColorBlue
        | PropertyFieldId::ColorAlpha => {
            let c = channel_required(target)?;
            finite_required(input)?;
            let component = match field {
                PropertyFieldId::ColorRed => ColorComponent::Red,
                PropertyFieldId::ColorGreen => ColorComponent::Green,
                PropertyFieldId::ColorBlue => ColorComponent::Blue,
                _ => ColorComponent::Alpha,
            };
            Ok(InspectorCommandRoute::Color { channel: c, component })
        },
        PropertyFieldId::Opacity | PropertyFieldId::ModeledMappingGain | PropertyFieldId::ModeledMappingBias => {
            let c = channel_required(target)?;
            finite_required(input)?;
            Ok(
                match field {
                    PropertyFieldId::Opacity => InspectorCommandRoute::Opacity { channel: c },
                    PropertyFieldId::ModeledMappingGain => InspectorCommandRoute::ModeledMappingGain { channel: c },
                    _ => InspectorCommandRoute::ModeledMappingBias { channel: c },
                },
            )
        },
        PropertyFieldId::Visibility | PropertyFieldId::ModeledMappingInverted => {
            let c = channel_required(target)?;
            let b = boolean_required(input)?;
            Ok(
                if field == PropertyFieldId::Visibility {
                    InspectorCommandRoute::Visibility { channel: c, visible: b }
                } else {
                    InspectorCommandRoute::ModeledMappingInverted { channel: c, inverted: b }
                },
            )
        },
        PropertyFieldId::SourceReference => match input {
            InspectorInput::Reference(PropertyReferenceValue::Source(s)) => Ok(
                InspectorCommandRoute::Source { source: *s },
            ),
            InspectorInput::Reference(_) => Err(not_source()),
            _ => Err(not_reference()),
        },
        PropertyFieldId::DefinitionSelection => match input {
            InspectorInput::Reference(PropertyReferenceValue::Definition(id)) => match target {
                PropertyTarget::Document => Ok(InspectorCommandRoute::DocumentDefinition { definition: *id }),
                PropertyTarget::Channel(c) => Ok(
                    InspectorCommandRoute::ChannelDefinition { channel: c, definition: *id },
                ),
                _ => Err(definition_authority()),
            },
            InspectorInput::Reference(_) => Err(not_definition()),
            _ => Err(not_reference()),
        },
        PropertyFieldId::LegacyMappingComponent | PropertyFieldId::ModeledMappingComponent => match input {
            InspectorInput::Choice(PropertyEnumChoice::SourceMappingComponent(k)) => {
                let c = channel_required(target)?;
                if field == PropertyFieldId::ModeledMappingComponent {
                    Ok(InspectorCommandRoute::ModeledMappingComponent { channel: c, component: *k })
                } else {
                    match k {
                        SourceMappingComponent::Luminance | SourceMappingComponent::Alpha => Ok(
                            InspectorCommandRoute::LegacyMappingComponent { channel: c, component: *k },
                        ),
                        _ => Err(legacy_component()),
                    }
                }
            },
            InspectorInput::Choice(_) => Err(not_mapping_component()),
            _ => Err(not_choice()),
        },
        PropertyFieldId::LegacyMappingPlacement | PropertyFieldId::ModeledMappingPlacement => match input {
            InspectorInput::Choice(PropertyEnumChoice::SourcePlacement(p)) => {
                let c = channel_required(target)?;
                Ok(
                    if field == PropertyFieldId::LegacyMappingPlacement {
                        InspectorCommandRoute::LegacyMappingPlacement { channel: c, placement: *p }
                    } else {
                        InspectorCommandRoute::ModeledMappingPlacement { channel: c, placement: *p }
                    },
                )
            },
            InspectorInput::Choice(_) => Err(not_mapping_placement()),
            _ => Err(not_choice()),
        },
        PropertyFieldId::Paint => match input {
            InspectorInput::Choice(PropertyEnumChoice::Paint(kind)) => {
                let c = channel_required(target)?;
                Ok(
                    match kind {
                        PaintKind::SampledSource => InspectorCommandRoute::SampledPaint { channel: c },
                        PaintKind::Solid => InspectorCommandRoute::SolidPaint { channel: c },
                    },
                )
            },
            InspectorInput::Choice(_) => Err(not_paint()),
            _ => Err(not_choice()),
        },
        _ => {
            let edit = structural_command_route(descriptor, input)?;
            Ok(InspectorCommandRoute::Definition(edit))
        },
    }
}

/// The random work limits (seed, maximum attempts, maximum neighbor
/// checks) of a mechanism take a whole number: a whole number `n` becomes a
/// count edit of `n` for that mechanism of that definition, and any other
/// input is refused as not being a whole number.
pub proof fn lemma_random_limits_take_whole_numbers(
    definition: u64,
    mechanism: u64,
    field: PropertyFieldId,
    value_kind: PropertyValueKind,
    input: InspectorInput,
)
    requires
        field == PropertyFieldId::RandomSeed || field == PropertyFieldId::RandomMaximumAttempts
            || field == PropertyFieldId::RandomMaximumNeighborChecks,
    ensures
        ({
            let descriptor = PropertyDescriptor {
                target: PropertyTarget::Mechanism(definition, mechanism),
                field,
                value_kind,
            };
            &&& input matches InspectorInput::WholeNumber(n) ==> structural_route(descriptor, input)
                == Ok::<DefinitionEditRoute, Seq<char>>(
                DefinitionEditRoute {
                    definition,
                    field,
                    mechanism: Some(mechanism),
                    dimension: None,
                    output_layer: None,
                    value: EditValue::Count(n),
                },
            )
            &&& !(input is WholeNumber) ==> structural_route(descriptor, input) == Err::<
                DefinitionEditRoute,
                Seq<char>,
            >(not_count_text())
        }),
{
}

/// A color field edits the paint component it names, on the channel the
/// descriptor targets, once the input is a finite number; without a channel
/// target or a finite number the edit is refused.
pub proof fn lemma_color_field_edits_its_component(
    descriptor: PropertyDescriptor,
    input: InspectorInput,
)
    requires
        crate::paint::component_spec(descriptor.field) is Some,
    ensures
        descriptor.target is Channel && is_finite_number(input) ==> {
            let c = descriptor.target->Channel_0;
            &&& inspector_route(descriptor, input) == Ok::<InspectorCommandRoute, Seq<char>>(
                InspectorCommandRoute::Color {
                    channel: c,
                    component: crate::paint::component_spec(descriptor.field)->0,
                },
            )
            &&& descriptor.field == PropertyFieldId::ColorRed ==> inspector_route(descriptor, input)
                == Ok::<InspectorCommandRoute, Seq<char>>(
                InspectorCommandRoute::Color { channel: c, component: ColorComponent::Red },
            )
            &&& descriptor.field == PropertyFieldId::ColorGreen ==> inspector_route(
                descriptor,
                input,
            ) == Ok::<InspectorCommandRoute, Seq<char>>(
                InspectorCommandRoute::Color { channel: c, component: ColorComponent::Green },
            )
            &&& descriptor.field == PropertyFieldId::ColorBlue ==> inspector_route(descriptor, input)
                == Ok::<InspectorCommandRoute, Seq<char>>(
                InspectorCommandRoute::Color { channel: c, component: ColorComponent::Blue },
            )
            &&& descriptor.field == PropertyFieldId::ColorAlpha ==> inspector_route(
                descriptor,
                input,
            ) == Ok::<InspectorCommandRoute, Seq<char>>(
                InspectorCommandRoute::Color { channel: c, component: ColorComponent::Alpha },
            )
        },
        !(descriptor.target is Channel) ==> inspector_route(descriptor, input) == Err::<
            InspectorCommandRoute,
            Seq<char>,
        >(no_channel_text()),
        descriptor.target is Channel && !is_finite_number(input) ==> inspector_route(
            descriptor,
            input,
        ) == Err::<InspectorCommandRoute, Seq<char>>(not_number_text()),
{
}

/// Every coverage, guide and dimension-list field that a structural input
/// can edit is a row of the Grid editor and not of the Mark editor, and
/// every output reference or prototype field is a row of the Mark editor and
/// not of the Grid editor.
pub proof fn lemma_structural_fields_have_their_editor(field: PropertyFieldId)
    ensures
        structural_kind(field) is Coverage || structural_kind(field) is GuideNumber
            || structural_kind(field) is GuideChoice || structural_kind(field) is DimensionList
            ==> editor_field(field, PatternEditorPurpose::Grid) && !editor_field(
            field,
            PatternEditorPurpose::Mark,
        ),
        structural_kind(field) is OutputReference || structural_kind(field) is OutputPrototype
            ==> editor_field(field, PatternEditorPurpose::Mark) && !editor_field(
            field,
            PatternEditorPurpose::Grid,
        ),
{
}

} // verus!
