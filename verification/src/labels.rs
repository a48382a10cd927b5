//! Artist-facing vocabulary for typed inspector fields and semantic units.
//!
//! These mappings supply presentation text only: applicability, bounds and
//! values stay with the document's descriptors.

use vstd::prelude::*;
use crate::inspector::PropertyFieldId;
use crate::scatter_memory::RandomCharacterKind;
use crate::text::{append_decimal, append_str, decimal};

verus! {

/// The section of the inspector a field is listed under.
pub open spec fn field_group(field: PropertyFieldId) -> Seq<char> {
    match field {
        PropertyFieldId::SourceReference
        | PropertyFieldId::LegacyMappingComponent
        | PropertyFieldId::LegacyMappingPlacement
        | PropertyFieldId::ModeledMappingComponent
        | PropertyFieldId::ModeledMappingPlacement
        | PropertyFieldId::ModeledMappingInverted
        | PropertyFieldId::ModeledMappingGain
        | PropertyFieldId::ModeledMappingBias
        | PropertyFieldId::ArtworkWeightMappingComponent
        | PropertyFieldId::ArtworkWeightMappingPlacement
        | PropertyFieldId::ArtworkWeightMappingInverted
        | PropertyFieldId::ArtworkWeightMappingGain
        | PropertyFieldId::ArtworkWeightMappingBias
        | PropertyFieldId::ArtworkWeightStrength
        | PropertyFieldId::ArtworkWeightResponse => "Source"@,
        PropertyFieldId::Paint
        | PropertyFieldId::ColorRed
        | PropertyFieldId::ColorGreen
        | PropertyFieldId::ColorBlue
        | PropertyFieldId::ColorAlpha
        | PropertyFieldId::Opacity
        | PropertyFieldId::Visibility => "Appearance"@,
        PropertyFieldId::DensityAcrossX
        | PropertyFieldId::DensityAcrossY
        | PropertyFieldId::DensityAspectLocked
        | PropertyFieldId::RotationDegrees
        | PropertyFieldId::TranslationX
        | PropertyFieldId::TranslationY => "Transform"@,
        PropertyFieldId::MarkMinimumFill
        | PropertyFieldId::MarkMaximumFill
        | PropertyFieldId::ShapeRotationDegrees => "Marks"@,
        PropertyFieldId::ConnectedMinimumThickness
        | PropertyFieldId::ConnectedMaximumThickness => "Paths"@,
        PropertyFieldId::DefinitionSelection => "Pattern"@,
        PropertyFieldId::CoverageGuardSteps
        | PropertyFieldId::CoverageAdditionalMargin
        | PropertyFieldId::GuideBaselineAngle
        | PropertyFieldId::GuidePhase
        | PropertyFieldId::GuideSpacingMultiplier
        | PropertyFieldId::GuideOffsetSpacing
        | PropertyFieldId::IntersectionDimensions
        | PropertyFieldId::IntersectionMergeEpsilon
        | PropertyFieldId::AlongGuideDimensions
        | PropertyFieldId::AlongGuideIntervalMultiplier
        | PropertyFieldId::AlongGuidePhase => "Active family"@,
        _ => "Active mechanism and output"@,
    }
}

/// Returns the inspector section that lists `field`.
pub fn inspector_group(field: PropertyFieldId) -> (group: &'static str)
    ensures
        group@ == field_group(field),
{
    match field {
        PropertyFieldId::SourceReference
        | PropertyFieldId::LegacyMappingComponent
        | PropertyFieldId::LegacyMappingPlacement
        | PropertyFieldId::ModeledMappingComponent
        | PropertyFieldId::ModeledMappingPlacement
        | PropertyFieldId::ModeledMappingInverted
        | PropertyFieldId::ModeledMappingGain
        | PropertyFieldId::ModeledMappingBias
        | PropertyFieldId::ArtworkWeightMappingComponent
        | PropertyFieldId::ArtworkWeightMappingPlacement
        | PropertyFieldId::ArtworkWeightMappingInverted
        | PropertyFieldId::ArtworkWeightMappingGain
        | PropertyFieldId::ArtworkWeightMappingBias
        | PropertyFieldId::ArtworkWeightStrength
        | PropertyFieldId::ArtworkWeightResponse => "Source",
        PropertyFieldId::Paint
        | PropertyFieldId::ColorRed
        | PropertyFieldId::ColorGreen
        | PropertyFieldId::ColorBlue
        | PropertyFieldId::ColorAlpha
        | PropertyFieldId::Opacity
        | PropertyFieldId::Visibility => "Appearance",
        PropertyFieldId::DensityAcrossX
        | PropertyFieldId::DensityAcrossY
        | PropertyFieldId::DensityAspectLocked
        | PropertyFieldId::RotationDegrees
        | PropertyFieldId::TranslationX
        | PropertyFieldId::TranslationY => "Transform",
        PropertyFieldId::MarkMinimumFill
        | PropertyFieldId::MarkMaximumFill
        | PropertyFieldId::ShapeRotationDegrees => "Marks",
        PropertyFieldId::ConnectedMinimumThickness
        | PropertyFieldId::ConnectedMaximumThickness => "Paths",
        PropertyFieldId::DefinitionSelection => "Pattern",
        PropertyFieldId::CoverageGuardSteps
        | PropertyFieldId::CoverageAdditionalMargin
        | PropertyFieldId::GuideBaselineAngle
        | PropertyFieldId::GuidePhase
        | PropertyFieldId::GuideSpacingMultiplier
        | PropertyFieldId::GuideOffsetSpacing
        | PropertyFieldId::IntersectionDimensions
        | PropertyFieldId::IntersectionMergeEpsilon
        | PropertyFieldId::AlongGuideDimensions
        | PropertyFieldId::AlongGuideIntervalMultiplier
        | PropertyFieldId::AlongGuidePhase => "Active family",
        _ => "Active mechanism and output",
    }
}

/// The artist-facing label of a field; fields without their own label share
/// the advanced-setting label.
pub open spec fn field_label(field: PropertyFieldId) -> Seq<char> {
    match field {
        PropertyFieldId::SourceReference => "Source artwork"@,
        PropertyFieldId::DensityAcrossX => "Density across X"@,
        PropertyFieldId::DensityAcrossY => "Density across Y"@,
        PropertyFieldId::DensityAspectLocked => "Lock density aspect"@,
        PropertyFieldId::RotationDegrees => "Rotation"@,
        PropertyFieldId::TranslationX => "X offset"@,
        PropertyFieldId::TranslationY => "Y offset"@,
        PropertyFieldId::MarkMinimumFill => "Minimum fill"@,
        PropertyFieldId::MarkMaximumFill => "Maximum fill"@,
        PropertyFieldId::ConnectedMinimumThickness => "Minimum thickness"@,
        PropertyFieldId::ConnectedMaximumThickness => "Maximum thickness"@,
        PropertyFieldId::ShapeRotationDegrees => "Shape rotation"@,
        PropertyFieldId::LegacyMappingComponent
        | PropertyFieldId::ModeledMappingComponent => "Source component"@,
        PropertyFieldId::LegacyMappingPlacement
        | PropertyFieldId::ModeledMappingPlacement => "Source placement"@,
        PropertyFieldId::ModeledMappingInverted => "Invert source mapping"@,
        PropertyFieldId::ModeledMappingGain => "Source mapping gain"@,
        PropertyFieldId::ModeledMappingBias => "Source mapping bias"@,
        PropertyFieldId::Paint => "Channel paint"@,
        PropertyFieldId::ColorRed => "Red"@,
        PropertyFieldId::ColorGreen => "Green"@,
        PropertyFieldId::ColorBlue => "Blue"@,
        PropertyFieldId::ColorAlpha => "Alpha"@,
        PropertyFieldId::Opacity => "Opacity"@,
        PropertyFieldId::Visibility => "Visible"@,
        PropertyFieldId::DefinitionSelection => "Pattern"@,
        PropertyFieldId::CoverageGuardSteps => "Coverage guard steps"@,
        PropertyFieldId::CoverageAdditionalMargin => "Additional margin"@,
        PropertyFieldId::GuideBaselineAngle => "Direction angle"@,
        PropertyFieldId::GuidePhase => "Direction offset"@,
        PropertyFieldId::GuideSpacingMultiplier => "Direction spacing"@,
        PropertyFieldId::GuidePrototype => "Guide prototype"@,
        PropertyFieldId::GuideAuthoredStructure => "Authored open path"@,
        PropertyFieldId::GuideArcCenterX => "Arc center X"@,
        PropertyFieldId::GuideArcCenterY => "Arc center Y"@,
        PropertyFieldId::GuideArcRadius => "Arc radius"@,
        PropertyFieldId::GuideArcStartAngle => "Arc start angle"@,
        PropertyFieldId::GuideArcSweepAngle => "Arc sweep angle"@,
        PropertyFieldId::GuideRepetition => "Guide repetition"@,
        PropertyFieldId::GuideOffsetSpacing => "Offset gap"@,
        PropertyFieldId::GuideOffsetSides => "Offset sides"@,
        PropertyFieldId::GuideOffsetCleanup => "Offset cleanup"@,
        PropertyFieldId::GuideStackDirection => "Stack direction"@,
        PropertyFieldId::GuideStackSpacingMultiplier => "Stack spacing multiplier"@,
        PropertyFieldId::IntersectionDimensions => "Directions at intersections"@,
        PropertyFieldId::IntersectionMergeEpsilon => "Intersection merge tolerance"@,
        PropertyFieldId::AlongGuideDimensions => "Directions along guides"@,
        PropertyFieldId::AlongGuideIntervalMultiplier => "Along-guide interval multiplier"@,
        PropertyFieldId::AlongGuidePhase => "Along-guide phase"@,
        PropertyFieldId::RandomCharacter => "Random distribution"@,
        PropertyFieldId::RandomEvenMinimumCenterDistance => "Even minimum center distance"@,
        PropertyFieldId::RandomClusterDensity => "Cluster density"@,
        PropertyFieldId::RandomClusterSpread => "Cluster spread"@,
        PropertyFieldId::RandomClusterStrength => "Cluster strength"@,
        PropertyFieldId::RandomSeed => "Random seed"@,
        PropertyFieldId::RandomDensityModulation => "Density modulation"@,
        PropertyFieldId::ArtworkWeightMappingComponent => "Artwork weight component"@,
        PropertyFieldId::ArtworkWeightMappingPlacement => "Artwork weight placement"@,
        PropertyFieldId::ArtworkWeightMappingInverted => "Invert artwork weight"@,
        PropertyFieldId::ArtworkWeightMappingGain => "Artwork weight gain"@,
        PropertyFieldId::ArtworkWeightMappingBias => "Artwork weight bias"@,
        PropertyFieldId::ArtworkWeightStrength => "Artwork weight strength"@,
        PropertyFieldId::ArtworkWeightResponse => "Artwork weight response"@,
        PropertyFieldId::RandomExclusion => "Site exclusion"@,
        PropertyFieldId::ExclusionMinimumCenterDistance => "Exclusion minimum center distance"@,
        PropertyFieldId::VisibleMarkMargin => "Visible-mark margin"@,
        PropertyFieldId::VisibleMarkSizingPolicy => "Visible-mark sizing policy"@,
        PropertyFieldId::RandomMaximumAttempts => "Maximum random attempts"@,
        PropertyFieldId::RandomMaximumNeighborChecks => "Maximum neighbor checks"@,
        PropertyFieldId::OutputSiteProduct => "Mark placement"@,
        PropertyFieldId::OutputPrototype => "Mark prototype"@,
        PropertyFieldId::OutputAuthoredClosedShape => "Closed shape reference"@,
        PropertyFieldId::OutputOrientation => "Mark orientation"@,
        PropertyFieldId::OutputOrientationDimension => "Orientation guide dimension"@,
        _ => "Advanced pattern setting"@,
    }
}

/// Returns the artist-facing inspector label for one typed field.
pub fn inspector_field_label(field: PropertyFieldId) -> (label: String)
    ensures
        label@ == field_label(field),
{
    let text: &'static str = match field {
        PropertyFieldId::SourceReference => "Source artwork",
        PropertyFieldId::DensityAcrossX => "Density across X",
        PropertyFieldId::DensityAcrossY => "Density across Y",
        PropertyFieldId::DensityAspectLocked => "Lock density aspect",
        PropertyFieldId::RotationDegrees => "Rotation",
        PropertyFieldId::TranslationX => "X offset",
        PropertyFieldId::TranslationY => "Y offset",
        PropertyFieldId::MarkMinimumFill => "Minimum fill",
        PropertyFieldId::MarkMaximumFill => "Maximum fill",
        PropertyFieldId::ConnectedMinimumThickness => "Minimum thickness",
        PropertyFieldId::ConnectedMaximumThickness => "Maximum thickness",
        PropertyFieldId::ShapeRotationDegrees => "Shape rotation",
        PropertyFieldId::LegacyMappingComponent
        | PropertyFieldId::ModeledMappingComponent => "Source component",
        PropertyFieldId::LegacyMappingPlacement
        | PropertyFieldId::ModeledMappingPlacement => "Source placement",
        PropertyFieldId::ModeledMappingInverted => "Invert source mapping",
        PropertyFieldId::ModeledMappingGain => "Source mapping gain",
        PropertyFieldId::ModeledMappingBias => "Source mapping bias",
        PropertyFieldId::Paint => "Channel paint",
        PropertyFieldId::ColorRed => "Red",
        PropertyFieldId::ColorGreen => "Green",
        PropertyFieldId::ColorBlue => "Blue",
        PropertyFieldId::ColorAlpha => "Alpha",
        PropertyFieldId::Opacity => "Opacity",
        PropertyFieldId::Visibility => "Visible",
        PropertyFieldId::DefinitionSelection => "Pattern",
        PropertyFieldId::CoverageGuardSteps => "Coverage guard steps",
        PropertyFieldId::CoverageAdditionalMargin => "Additional margin",
        PropertyFieldId::GuideBaselineAngle => "Direction angle",
        PropertyFieldId::GuidePhase => "Direction offset",
        PropertyFieldId::GuideSpacingMultiplier => "Direction spacing",
        PropertyFieldId::GuidePrototype => "Guide prototype",
        PropertyFieldId::GuideAuthoredStructure => "Authored open path",
        PropertyFieldId::GuideArcCenterX => "Arc center X",
        PropertyFieldId::GuideArcCenterY => "Arc center Y",
        PropertyFieldId::GuideArcRadius => "Arc radius",
        PropertyFieldId::GuideArcStartAngle => "Arc start angle",
        PropertyFieldId::GuideArcSweepAngle => "Arc sweep angle",
        PropertyFieldId::GuideRepetition => "Guide repetition",
        PropertyFieldId::GuideOffsetSpacing => "Offset gap",
        PropertyFieldId::GuideOffsetSides => "Offset sides",
        PropertyFieldId::GuideOffsetCleanup => "Offset cleanup",
        PropertyFieldId::GuideStackDirection => "Stack direction",
        PropertyFieldId::GuideStackSpacingMultiplier => "Stack spacing multiplier",
        PropertyFieldId::IntersectionDimensions => "Directions at intersections",
        PropertyFieldId::IntersectionMergeEpsilon => "Intersection merge tolerance",
        PropertyFieldId::AlongGuideDimensions => "Directions along guides",
        PropertyFieldId::AlongGuideIntervalMultiplier => "Along-guide interval multiplier",
        PropertyFieldId::AlongGuidePhase => "Along-guide phase",
        PropertyFieldId::RandomCharacter => "Random distribution",
        PropertyFieldId::RandomEvenMinimumCenterDistance => "Even minimum center distance",
        PropertyFieldId::RandomClusterDensity => "Cluster density",
        PropertyFieldId::RandomClusterSpread => "Cluster spread",
        PropertyFieldId::RandomClusterStrength => "Cluster strength",
        PropertyFieldId::RandomSeed => "Random seed",
        PropertyFieldId::RandomDensityModulation => "Density modulation",
        PropertyFieldId::ArtworkWeightMappingComponent => "Artwork weight component",
        PropertyFieldId::ArtworkWeightMappingPlacement => "Artwork weight placement",
        PropertyFieldId::ArtworkWeightMappingInverted => "Invert artwork weight",
        PropertyFieldId::ArtworkWeightMappingGain => "Artwork weight gain",
        PropertyFieldId::ArtworkWeightMappingBias => "Artwork weight bias",
        PropertyFieldId::ArtworkWeightStrength => "Artwork weight strength",
        PropertyFieldId::ArtworkWeightResponse => "Artwork weight response",
        PropertyFieldId::RandomExclusion => "Site exclusion",
        PropertyFieldId::ExclusionMinimumCenterDistance => "Exclusion minimum center distance",
        PropertyFieldId::VisibleMarkMargin => "Visible-mark margin",
        PropertyFieldId::VisibleMarkSizingPolicy => "Visible-mark sizing policy",
        PropertyFieldId::RandomMaximumAttempts => "Maximum random attempts",
        PropertyFieldId::RandomMaximumNeighborChecks => "Maximum neighbor checks",
        PropertyFieldId::OutputSiteProduct => "Mark placement",
        PropertyFieldId::OutputPrototype => "Mark prototype",
        PropertyFieldId::OutputAuthoredClosedShape => "Closed shape reference",
        PropertyFieldId::OutputOrientation => "Mark orientation",
        PropertyFieldId::OutputOrientationDimension => "Orientation guide dimension",
        _ => "Advanced pattern setting",
    };
    text.to_owned()
}

/// The semantic unit a descriptor reports for its value.
#[derive(Clone, Copy, Debug, PartialEq, Eq, Structural)]
pub enum PropertyUnit {
    Unitless,
    Density,
    Degrees,
    Phase,
    DocumentDistance,
    NormalizedComponent,
    Count,
}

/// The helper text shown for a unit; empty text means no helper.
pub open spec fn unit_text(unit: PropertyUnit) -> Seq<char> {
    match unit {
        PropertyUnit::Unitless => ""@,
        PropertyUnit::Density => "Density"@,
        PropertyUnit::Degrees => "Degrees"@,
        PropertyUnit::Phase => "Offset"@,
        PropertyUnit::DocumentDistance => "Canvas distance"@,
        PropertyUnit::NormalizedComponent => "Channel amount"@,
        PropertyUnit::Count => "Count"@,
    }
}

/// Maps a semantic unit to concise artist-facing helper text, never to raw
/// bounds or unit tokens.
pub fn unit_message(unit: PropertyUnit) -> (message: &'static str)
    ensures
        message@ == unit_text(unit),
{
    match unit {
        PropertyUnit::Unitless => "",
        PropertyUnit::Density => "Density",
        PropertyUnit::Degrees => "Degrees",
        PropertyUnit::Phase => "Offset",
        PropertyUnit::DocumentDistance => "Canvas distance",
        PropertyUnit::NormalizedComponent => "Channel amount",
        PropertyUnit::Count => "Count",
    }
}

/// A source color component a mapping reads.
#[derive(Clone, Copy, Debug, PartialEq, Eq, Structural)]
pub enum SourceMappingComponent {
    Red,
    Green,
    Blue,
    Cyan,
    Magenta,
    Yellow,
    Black,
    Alpha,
    Luminance,
}

/// How source artwork is placed on the canvas.
#[derive(Clone, Copy, Debug, PartialEq, Eq, Structural)]
pub enum SourcePlacement {
    StretchToCanvas,
}

/// How a channel is painted.
#[derive(Clone, Copy, Debug, PartialEq, Eq, Structural)]
pub enum PaintKind {
    Solid,
    SampledSource,
}

/// How random-site density varies.
#[derive(Clone, Copy, Debug, PartialEq, Eq, Structural)]
pub enum DensityModulationKind {
    Uniform,
    ArtworkWeighted,
}

/// The response curve of artwork weighting.
#[derive(Clone, Copy, Debug, PartialEq, Eq, Structural)]
pub enum ArtworkWeightResponse {
    Linear,
    Smoothstep,
}

/// How random sites exclude one another.
#[derive(Clone, Copy, Debug, PartialEq, Eq, Structural)]
pub enum ExclusionKind {
    NoExclusion,
    MinimumCenterDistance,
    VisibleMarkMargin,
}

/// How visible-mark margins size marks.
#[derive(Clone, Copy, Debug, PartialEq, Eq, Structural)]
pub enum VisibleMarkSizingPolicy {
    MaximumSupportRadius,
}

/// The prototype of a placed mark.
#[derive(Clone, Copy, Debug, PartialEq, Eq, Structural)]
pub enum MarkPrototypeKind {
    Circle,
    AuthoredClosedShape,
}

/// How a placed mark is oriented.
#[derive(Clone, Copy, Debug, PartialEq, Eq, Structural)]
pub enum MarkOrientationKind {
    Fixed,
    GuideTangent,
    GuideNormal,
}

/// The prototype of a guide.
#[derive(Clone, Copy, Debug, PartialEq, Eq, Structural)]
pub enum GuidePrototypeKind {
    AuthoredOpenPath,
    CircularArc,
}

/// How a guide repeats.
#[derive(Clone, Copy, Debug, PartialEq, Eq, Structural)]
pub enum GuideRepetitionKind {
    Single,
    TransformStack,
    NormalOffset,
}

/// The sides a normal offset repeats to.
#[derive(Clone, Copy, Debug, PartialEq, Eq, Structural)]
pub enum OffsetSides {
    Left,
    Right,
    Both,
}

/// How overlapping offsets are cleaned up.
#[derive(Clone, Copy, Debug, PartialEq, Eq, Structural)]
pub enum OffsetCleanup {
    DissolveCrossings,
}

/// A typed selector choice; choices this vocabulary does not name are
/// carried as `Other` with a stable code chosen by the caller.
#[derive(Clone, Copy, Debug, PartialEq, Eq, Structural)]
pub enum PropertyEnumChoice {
    SourceMappingComponent(SourceMappingComponent),
    SourcePlacement(SourcePlacement),
    Paint(PaintKind),
    RandomCharacter(RandomCharacterKind),
    DensityModulation(DensityModulationKind),
    ArtworkWeightResponse(ArtworkWeightResponse),
    Exclusion(ExclusionKind),
    VisibleMarkSizingPolicy(VisibleMarkSizingPolicy),
    MarkPrototype(MarkPrototypeKind),
    MarkOrientation(MarkOrientationKind),
    GuidePrototype(GuidePrototypeKind),
    GuideRepetition(GuideRepetitionKind),
    OffsetSides(OffsetSides),
    OffsetCleanup(OffsetCleanup),
    Other(u32),
}

/// The artist-facing label of a selector choice.
pub open spec fn choice_label(choice: PropertyEnumChoice) -> Seq<char> {
    match choice {
        PropertyEnumChoice::SourceMappingComponent(SourceMappingComponent::Red) => "Red"@,
        PropertyEnumChoice::SourceMappingComponent(SourceMappingComponent::Green) => "Green"@,
        PropertyEnumChoice::SourceMappingComponent(SourceMappingComponent::Blue) => "Blue"@,
        PropertyEnumChoice::SourceMappingComponent(SourceMappingComponent::Cyan) => "Cyan"@,
        PropertyEnumChoice::SourceMappingComponent(SourceMappingComponent::Magenta) => "Magenta"@,
        PropertyEnumChoice::SourceMappingComponent(SourceMappingComponent::Yellow) => "Yellow"@,
        PropertyEnumChoice::SourceMappingComponent(SourceMappingComponent::Black) => "Black"@,
        PropertyEnumChoice::SourceMappingComponent(SourceMappingComponent::Alpha) => "Alpha"@,
        PropertyEnumChoice::SourceMappingComponent(SourceMappingComponent::Luminance) => "Luminance"@,
        PropertyEnumChoice::SourcePlacement(SourcePlacement::StretchToCanvas) => "Stretch to canvas"@,
        PropertyEnumChoice::Paint(PaintKind::Solid) => "Solid color"@,
        PropertyEnumChoice::Paint(PaintKind::SampledSource) => "Sampled source color"@,
        PropertyEnumChoice::RandomCharacter(RandomCharacterKind::RawUniform) => "Uniform"@,
        PropertyEnumChoice::RandomCharacter(RandomCharacterKind::Even) => "Even spacing"@,
        PropertyEnumChoice::RandomCharacter(RandomCharacterKind::Clustered) => "Clustered"@,
        PropertyEnumChoice::DensityModulation(DensityModulationKind::Uniform) => "Uniform"@,
        PropertyEnumChoice::DensityModulation(DensityModulationKind::ArtworkWeighted) => "Artwork weighted"@,
        PropertyEnumChoice::ArtworkWeightResponse(ArtworkWeightResponse::Linear) => "Linear"@,
        PropertyEnumChoice::ArtworkWeightResponse(ArtworkWeightResponse::Smoothstep) => "Smoothstep"@,
        PropertyEnumChoice::Exclusion(ExclusionKind::NoExclusion) => "None"@,
        PropertyEnumChoice::Exclusion(ExclusionKind::MinimumCenterDistance) => "Minimum center distance"@,
        PropertyEnumChoice::Exclusion(ExclusionKind::VisibleMarkMargin) => "Visible-mark margin"@,
        PropertyEnumChoice::VisibleMarkSizingPolicy(VisibleMarkSizingPolicy::MaximumSupportRadius) => "Maximum support radius"@,
        PropertyEnumChoice::MarkPrototype(MarkPrototypeKind::Circle) => "Circle"@,
        PropertyEnumChoice::MarkPrototype(MarkPrototypeKind::AuthoredClosedShape) => "Authored closed shape"@,
        PropertyEnumChoice::MarkOrientation(MarkOrientationKind::Fixed) => "Fixed"@,
        PropertyEnumChoice::MarkOrientation(MarkOrientationKind::GuideTangent) => "Guide tangent"@,
        PropertyEnumChoice::MarkOrientation(MarkOrientationKind::GuideNormal) => "Guide normal"@,
        PropertyEnumChoice::GuidePrototype(GuidePrototypeKind::AuthoredOpenPath) => "Authored open path"@,
        PropertyEnumChoice::GuidePrototype(GuidePrototypeKind::CircularArc) => "Circular arc"@,
        PropertyEnumChoice::GuideRepetition(GuideRepetitionKind::Single) => "Single"@,
        PropertyEnumChoice::GuideRepetition(GuideRepetitionKind::TransformStack) => "Transform stack"@,
        PropertyEnumChoice::GuideRepetition(GuideRepetitionKind::NormalOffset) => "Normal offset"@,
        PropertyEnumChoice::OffsetSides(OffsetSides::Left) => "Left"@,
        PropertyEnumChoice::OffsetSides(OffsetSides::Right) => "Right"@,
        PropertyEnumChoice::OffsetSides(OffsetSides::Both) => "Both"@,
        PropertyEnumChoice::OffsetCleanup(OffsetCleanup::DissolveCrossings) => "Dissolve crossings"@,
        PropertyEnumChoice::Other(_) => "Advanced pattern choice"@,
    }
}

/// Returns the static artist-facing label for one typed selector choice.
pub fn enum_choice_label(choice: PropertyEnumChoice) -> (label: &'static str)
    ensures
        label@ == choice_label(choice),
{
    match choice {
        PropertyEnumChoice::SourceMappingComponent(SourceMappingComponent::Red) => "Red",
        PropertyEnumChoice::SourceMappingComponent(SourceMappingComponent::Green) => "Green",
        PropertyEnumChoice::SourceMappingComponent(SourceMappingComponent::Blue) => "Blue",
        PropertyEnumChoice::SourceMappingComponent(SourceMappingComponent::Cyan) => "Cyan",
        PropertyEnumChoice::SourceMappingComponent(SourceMappingComponent::Magenta) => "Magenta",
        PropertyEnumChoice::SourceMappingComponent(SourceMappingComponent::Yellow) => "Yellow",
        PropertyEnumChoice::SourceMappingComponent(SourceMappingComponent::Black) => "Black",
        PropertyEnumChoice::SourceMappingComponent(SourceMappingComponent::Alpha) => "Alpha",
        PropertyEnumChoice::SourceMappingComponent(SourceMappingComponent::Luminance) => "Luminance",
        PropertyEnumChoice::SourcePlacement(SourcePlacement::StretchToCanvas) => "Stretch to canvas",
        PropertyEnumChoice::Paint(PaintKind::Solid) => "Solid color",
        PropertyEnumChoice::Paint(PaintKind::SampledSource) => "Sampled source color",
        PropertyEnumChoice::RandomCharacter(RandomCharacterKind::RawUniform) => "Uniform",
        PropertyEnumChoice::RandomCharacter(RandomCharacterKind::Even) => "Even spacing",
        PropertyEnumChoice::RandomCharacter(RandomCharacterKind::Clustered) => "Clustered",
        PropertyEnumChoice::DensityModulation(DensityModulationKind::Uniform) => "Uniform",
        PropertyEnumChoice::DensityModulation(DensityModulationKind::ArtworkWeighted) => "Artwork weighted",
        PropertyEnumChoice::ArtworkWeightResponse(ArtworkWeightResponse::Linear) => "Linear",
        PropertyEnumChoice::ArtworkWeightResponse(ArtworkWeightResponse::Smoothstep) => "Smoothstep",
        PropertyEnumChoice::Exclusion(ExclusionKind::NoExclusion) => "None",
        PropertyEnumChoice::Exclusion(ExclusionKind::MinimumCenterDistance) => "Minimum center distance",
        PropertyEnumChoice::Exclusion(ExclusionKind::VisibleMarkMargin) => "Visible-mark margin",
        PropertyEnumChoice::VisibleMarkSizingPolicy(VisibleMarkSizingPolicy::MaximumSupportRadius) => "Maximum support radius",
        PropertyEnumChoice::MarkPrototype(MarkPrototypeKind::Circle) => "Circle",
        PropertyEnumChoice::MarkPrototype(MarkPrototypeKind::AuthoredClosedShape) => "Authored closed shape",
        PropertyEnumChoice::MarkOrientation(MarkOrientationKind::Fixed) => "Fixed",
        PropertyEnumChoice::MarkOrientation(MarkOrientationKind::GuideTangent) => "Guide tangent",
        PropertyEnumChoice::MarkOrientation(MarkOrientationKind::GuideNormal) => "Guide normal",
        PropertyEnumChoice::GuidePrototype(GuidePrototypeKind::AuthoredOpenPath) => "Authored open path",
        PropertyEnumChoice::GuidePrototype(GuidePrototypeKind::CircularArc) => "Circular arc",
        PropertyEnumChoice::GuideRepetition(GuideRepetitionKind::Single) => "Single",
        PropertyEnumChoice::GuideRepetition(GuideRepetitionKind::TransformStack) => "Transform stack",
        PropertyEnumChoice::GuideRepetition(GuideRepetitionKind::NormalOffset) => "Normal offset",
        PropertyEnumChoice::OffsetSides(OffsetSides::Left) => "Left",
        PropertyEnumChoice::OffsetSides(OffsetSides::Right) => "Right",
        PropertyEnumChoice::OffsetSides(OffsetSides::Both) => "Both",
        PropertyEnumChoice::OffsetCleanup(OffsetCleanup::DissolveCrossings) => "Dissolve crossings",
        PropertyEnumChoice::Other(_) => "Advanced pattern choice",
    }
}

/// What a source reference points at.
#[derive(Clone, Copy, Debug, PartialEq, Eq, Structural)]
pub enum SourceReference {
    Unassigned,
    Assigned(u64),
}

/// A typed stable reference a descriptor holds, with IDs as plain integers.
#[derive(Clone, Copy, Debug, PartialEq, Eq, Structural)]
pub enum PropertyReferenceValue {
    Source(SourceReference),
    Definition(u64),
    Mechanism(u64),
    GuideDimension(u64),
    AuthoredStructure(u64),
}

/// The artist-facing text of a stable reference; it never shows the ID.
pub open spec fn reference_text(reference: PropertyReferenceValue) -> Seq<char> {
    match reference {
        PropertyReferenceValue::Source(SourceReference::Unassigned) => "No source assigned"@,
        PropertyReferenceValue::Source(SourceReference::Assigned(_)) => "Current source artwork"@,
        PropertyReferenceValue::Definition(_) => "Current pattern"@,
        PropertyReferenceValue::Mechanism(_) => "Current placement"@,
        PropertyReferenceValue::GuideDimension(_) => "Direction"@,
        PropertyReferenceValue::AuthoredStructure(_) => "Authored open path"@,
    }
}

/// Returns the artist-facing display text for one typed stable reference.
pub fn reference_label(reference: &PropertyReferenceValue) -> (label: String)
    ensures
        label@ == reference_text(*reference),
{
    let text: &'static str = match reference {
        PropertyReferenceValue::Source(SourceReference::Unassigned) => "No source assigned",
        PropertyReferenceValue::Source(SourceReference::Assigned(_)) => "Current source artwork",
        PropertyReferenceValue::Definition(_) => "Current pattern",
        PropertyReferenceValue::Mechanism(_) => "Current placement",
        PropertyReferenceValue::GuideDimension(_) => "Direction",
        PropertyReferenceValue::AuthoredStructure(_) => "Authored open path",
    };
    text.to_owned()
}

/// A current value other than a finite number, as the inspector shows it.
#[derive(Clone, Debug)]
pub enum DisplayValue {
    U32(u32),
    Boolean(bool),
    EnumChoice(PropertyEnumChoice),
    Reference(PropertyReferenceValue),
    ReferenceCollection(Vec<PropertyReferenceValue>),
}

/// The labels of `references`, separated by a comma and a space.
pub open spec fn joined_references(references: Seq<PropertyReferenceValue>) -> Seq<char>
    decreases references.len(),
{
    if references.len() == 0 {
        Seq::empty()
    } else if references.len() == 1 {
        reference_text(references[0])
    } else {
        joined_references(references.drop_last()) + ", "@ + reference_text(references.last())
    }
}

/// The display text of a current value.
pub open spec fn display_text(value: DisplayValue) -> Seq<char> {
    match value {
        DisplayValue::U32(n) => decimal(n as nat),
        DisplayValue::Boolean(b) => if b {
            "true"@
        } else {
            "false"@
        },
        DisplayValue::EnumChoice(choice) => choice_label(choice),
        DisplayValue::Reference(reference) => reference_text(reference),
        DisplayValue::ReferenceCollection(references) => joined_references(references@),
    }
}

/// Renders a current value for a read-only inspector row.
pub fn current_display(value: &DisplayValue) -> (text: String)
    ensures
        text@ == display_text(*value),
{
    match value {
        DisplayValue::U32(n) => {
            let mut text = String::new();
            append_decimal(&mut text, *n as u64);
            text
        },
        DisplayValue::Boolean(b) => if *b {
            "true".to_owned()
        } else {
            "false".to_owned()
        },
        DisplayValue::EnumChoice(choice) => enum_choice_label(*choice).to_owned(),
        DisplayValue::Reference(reference) => reference_label(reference),
        DisplayValue::ReferenceCollection(references) => {
            let mut text = String::new();
            let mut i: usize = 0;
            while i < references.len()
                invariant
                    0 <= i <= references@.len(),
                    text@ == joined_references(references@.take(i as int)),
                decreases references@.len() - i,
            {
                proof {
                    assert(references@.take(i + 1).drop_last() =~= references@.take(i as int));
                }
                if i > 0 {
                    append_str(&mut text, ", ");
                }
                let label = reference_label(&references[i]);
                append_str(&mut text, label.as_str());
                proof {
                    if i == 0 {
                        assert(text@ =~= reference_text(references@[0]));
                    }
                }
                i = i + 1;
            }
            proof {
                assert(references@.take(references@.len() as int) =~= references@);
            }
            text
        },
    }
}

} // verus!
