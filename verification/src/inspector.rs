//! Inspector presentation policy over descriptor/value pairs: which control
//! edits a value, which values a sidebar or editor shows, and how keyboard
//! focus survives document changes.
//!
//! Descriptors and values stay owned by the document; the types here carry
//! only what this policy reads of them.

use vstd::prelude::*;
use crate::channels::ChannelId;

verus! {

/// The property fields this policy distinguishes; every other field is
/// carried as `Other` with a stable code chosen by the caller.
#[derive(Clone, Copy, Debug, PartialEq, Eq, Structural)]
pub enum PropertyFieldId {
    SourceReference,
    DensityAspectLocked,
    DensityAcrossX,
    DensityAcrossY,
    RotationDegrees,
    TranslationX,
    TranslationY,
    GuideBaselineAngle,
    GuidePhase,
    GuideSpacingMultiplier,
    GuidePrototype,
    GuideAuthoredStructure,
    GuideArcCenterX,
    GuideArcCenterY,
    GuideArcRadius,
    GuideArcStartAngle,
    GuideArcSweepAngle,
    GuideRepetition,
    GuideOffsetSpacing,
    GuideOffsetSides,
    GuideOffsetCleanup,
    GuideStackDirection,
    GuideStackSpacingMultiplier,
    IntersectionDimensions,
    IntersectionMergeEpsilon,
    AlongGuideDimensions,
    AlongGuideIntervalMultiplier,
    AlongGuidePhase,
    CoverageGuardSteps,
    CoverageAdditionalMargin,
    MarkMinimumFill,
    MarkMaximumFill,
    ShapeRotationDegrees,
    OutputSiteProduct,
    OutputPrototype,
    OutputAuthoredClosedShape,
    OutputOrientation,
    OutputOrientationDimension,
    RandomCharacter,
    RandomDensityModulation,
    ArtworkWeightMappingComponent,
    ArtworkWeightMappingPlacement,
    ArtworkWeightMappingInverted,
    ArtworkWeightMappingGain,
    ArtworkWeightMappingBias,
    ArtworkWeightStrength,
    ArtworkWeightResponse,
    RandomExclusion,
    ExclusionMinimumCenterDistance,
    VisibleMarkMargin,
    VisibleMarkSizingPolicy,
    RandomMaximumAttempts,
    RandomMaximumNeighborChecks,
    Opacity,
    RandomSeed,
    ColorRed,
    ColorGreen,
    ColorBlue,
    ColorAlpha,
    LegacyMappingComponent,
    LegacyMappingPlacement,
    ModeledMappingComponent,
    ModeledMappingPlacement,
    ModeledMappingInverted,
    ModeledMappingGain,
    ModeledMappingBias,
    Paint,
    Visibility,
    DefinitionSelection,
    ConnectedMinimumThickness,
    ConnectedMaximumThickness,
    RandomEvenMinimumCenterDistance,
    RandomClusterDensity,
    RandomClusterSpread,
    RandomClusterStrength,
    Other(u32),
}

/// What a descriptor edits, with stable IDs as plain integers.
#[derive(Clone, Copy, Debug, PartialEq, Eq, Structural)]
pub enum PropertyTarget {
    Document,
    Channel(ChannelId),
    ChannelOutput(ChannelId, u64),
    Definition(u64),
    Mechanism(u64, u64),
    OutputLayer(u64, u64),
    GuideDimension(u64, u64, u64),
}

/// The kind of value a descriptor accepts.
#[derive(Clone, Copy, Debug, PartialEq, Eq, Structural)]
pub enum PropertyValueKind {
    FiniteF64,
    U32,
    Boolean,
    EnumChoice,
    StableIdReference,
}

/// The kind of a current value.
#[derive(Clone, Copy, Debug, PartialEq, Eq, Structural)]
pub enum PropertyCurrentValueKind {
    FiniteF64,
    U32,
    Boolean,
    EnumChoice,
    Reference,
    ReferenceCollection,
}

/// What this policy reads of a property descriptor.
#[derive(Clone, Copy, Debug, PartialEq, Eq, Structural)]
pub struct PropertyDescriptor {
    pub target: PropertyTarget,
    pub field: PropertyFieldId,
    pub value_kind: PropertyValueKind,
}

/// What this policy reads of one descriptor/value pair.
#[derive(Clone, Copy, Debug, PartialEq, Eq, Structural)]
pub struct PropertyCurrentValue {
    pub descriptor: PropertyDescriptor,
    pub value: PropertyCurrentValueKind,
}

/// The generic control that edits one value.
#[derive(Clone, Copy, Debug, PartialEq, Eq, Structural)]
pub enum InspectorControlRoute {
    FiniteNumber,
    WholeNumber,
    Toggle,
    Choice,
    Reference,
    ReferenceCollection,
}

/// The control for a descriptor/value pair whose kinds agree.
pub open spec fn route_spec(value: PropertyCurrentValue) -> Option<InspectorControlRoute> {
    match (value.descriptor.value_kind, value.value) {
        (PropertyValueKind::FiniteF64, PropertyCurrentValueKind::FiniteF64) => Some(
            InspectorControlRoute::FiniteNumber,
        ),
        (PropertyValueKind::U32, PropertyCurrentValueKind::U32) => Some(
            InspectorControlRoute::WholeNumber,
        ),
        (PropertyValueKind::Boolean, PropertyCurrentValueKind::Boolean) => Some(
            InspectorControlRoute::Toggle,
        ),
        (PropertyValueKind::EnumChoice, PropertyCurrentValueKind::EnumChoice) => Some(
            InspectorControlRoute::Choice,
        ),
        (PropertyValueKind::StableIdReference, PropertyCurrentValueKind::Reference) => Some(
            InspectorControlRoute::Reference,
        ),
        (PropertyValueKind::StableIdReference, PropertyCurrentValueKind::ReferenceCollection) => Some(
            InspectorControlRoute::ReferenceCollection,
        ),
        _ => None,
    }
}

/// Routes a descriptor/value pair to its one generic control; mismatched
/// kinds get none.
pub fn control_route(value: &PropertyCurrentValue) -> (route: Option<InspectorControlRoute>)
    ensures
        route == route_spec(*value),
{
    match (value.descriptor.value_kind, value.value) {
        (PropertyValueKind::FiniteF64, PropertyCurrentValueKind::FiniteF64) => Some(
            InspectorControlRoute::FiniteNumber,
        ),
        (PropertyValueKind::U32, PropertyCurrentValueKind::U32) => Some(
            InspectorControlRoute::WholeNumber,
        ),
        (PropertyValueKind::Boolean, PropertyCurrentValueKind::Boolean) => Some(
            InspectorControlRoute::Toggle,
        ),
        (PropertyValueKind::EnumChoice, PropertyCurrentValueKind::EnumChoice) => Some(
            InspectorControlRoute::Choice,
        ),
        (PropertyValueKind::StableIdReference, PropertyCurrentValueKind::Reference) => Some(
            InspectorControlRoute::Reference,
        ),
        (PropertyValueKind::StableIdReference, PropertyCurrentValueKind::ReferenceCollection) => Some(
            InspectorControlRoute::ReferenceCollection,
        ),
        _ => None,
    }
}

/// The stable identity of one inspector row: its target and field.
#[derive(Clone, Copy, Debug, PartialEq, Eq, Structural)]
pub struct InspectorKey {
    pub target: PropertyTarget,
    pub field: PropertyFieldId,
}

/// The row identity of a descriptor.
pub open spec fn key_of(descriptor: PropertyDescriptor) -> InspectorKey {
    InspectorKey { target: descriptor.target, field: descriptor.field }
}

/// Returns the row identity of a descriptor.
pub fn inspector_key(descriptor: &PropertyDescriptor) -> (key: InspectorKey)
    ensures
        key == key_of(*descriptor),
{
    InspectorKey { target: descriptor.target, field: descriptor.field }
}

/// Runtime-only keyboard focus recovery. The descriptor key is the primary
/// identity; a guide scalar's descriptor-order ordinal permits deterministic
/// remapping after selected copy-on-edit gives every guide fresh stable IDs.
#[derive(Clone, Copy, Debug, PartialEq, Eq, Structural)]
pub enum InspectorFocusIdentity {
    Descriptor {
        key: InspectorKey,
        field: PropertyFieldId,
        collection_index: Option<usize>,
        guide_ordinal: Option<usize>,
    },
}

/// A value is a guide scalar of `field`.
pub open spec fn is_guide_scalar(value: PropertyCurrentValue, field: PropertyFieldId) -> bool {
    value.descriptor.field == field && value.descriptor.target is GuideDimension
}

/// Among the guide scalars of `descriptor`'s field, the position of the first
/// one with `descriptor`'s target.
pub open spec fn guide_position(
    values: Seq<PropertyCurrentValue>,
    descriptor: PropertyDescriptor,
) -> Option<nat>
    decreases values.len(),
{
    if values.len() == 0 {
        None
    } else if is_guide_scalar(values[0], descriptor.field) {
        if values[0].descriptor.target == descriptor.target {
            Some(0)
        } else {
            match guide_position(values.skip(1), descriptor) {
                Some(n) => Some(n + 1),
                None => None,
            }
        }
    } else {
        guide_position(values.skip(1), descriptor)
    }
}

/// The focus identity of `descriptor` within `values`.
pub open spec fn focus_spec(
    values: Seq<PropertyCurrentValue>,
    descriptor: PropertyDescriptor,
    collection_index: Option<usize>,
) -> InspectorFocusIdentity {
    InspectorFocusIdentity::Descriptor {
        key: key_of(descriptor),
        field: descriptor.field,
        collection_index,
        guide_ordinal: if descriptor.target is GuideDimension {
            match guide_position(values, descriptor) {
                Some(n) => Some(n as usize),
                None => None,
            }
        } else {
            None
        },
    }
}

proof fn lemma_skip_step<V>(s: Seq<V>, i: int)
    requires
        0 <= i < s.len(),
    ensures
        s.skip(i).skip(1) =~= s.skip(i + 1),
        s.skip(i)[0] == s[i],
        s.skip(i).len() > 0,
{
}

proof fn lemma_guide_position_bound(values: Seq<PropertyCurrentValue>, descriptor: PropertyDescriptor)
    ensures
        guide_position(values, descriptor) matches Some(n) ==> n < values.len(),
    decreases values.len(),
{
    if values.len() > 0 {
        lemma_guide_position_bound(values.skip(1), descriptor);
    }
}

fn guide_ordinal_of(values: &[PropertyCurrentValue], descriptor: &PropertyDescriptor) -> (ordinal:
    Option<usize>)
    ensures
        guide_position(values@, *descriptor) matches Some(n) ==> n < values@.len(),
        ordinal matches Some(n) ==> guide_position(values@, *descriptor) == Some(n as nat),
        ordinal is None ==> guide_position(values@, *descriptor) is None,
        ordinal == match guide_position(values@, *descriptor) {
            Some(n) => Some(n as usize),
            None => None,
        },
{
    let mut count: usize = 0;
    let mut i: usize = 0;
    proof {
        assert(values@.skip(0) =~= values@);
        lemma_guide_position_bound(values@, *descriptor);
    }
    while i < values.len()
        invariant
            0 <= i <= values@.len(),
            count <= i,
            guide_position(values@, *descriptor) == match guide_position(
                values@.skip(i as int),
                *descriptor,
            ) {
                Some(n) => Some((n + count) as nat),
                None => None,
            },
        decreases values@.len() - i,
    {
        proof {
            lemma_skip_step(values@, i as int);
        }
        let v = values[i];
        let guide = match v.descriptor.target {
            PropertyTarget::GuideDimension(..) => true,
            _ => false,
        };
        if v.descriptor.field == descriptor.field && guide {
            if v.descriptor.target == descriptor.target {
                return Some(count);
            }
            count = count + 1;
        }
        i = i + 1;
    }
    proof {
        assert(values@.skip(i as int) =~= Seq::<PropertyCurrentValue>::empty());
    }
    None
}

/// Returns the focus identity of a descriptor without a guide ordinal.
pub fn focus_for_descriptor(
    descriptor: &PropertyDescriptor,
    collection_index: Option<usize>,
) -> (focus: InspectorFocusIdentity)
    ensures
        focus == (InspectorFocusIdentity::Descriptor {
            key: key_of(*descriptor),
            field: descriptor.field,
            collection_index,
            guide_ordinal: None,
        }),
{
    InspectorFocusIdentity::Descriptor {
        key: inspector_key(descriptor),
        field: descriptor.field,
        collection_index,
        guide_ordinal: None,
    }
}

/// Returns the focus identity of a descriptor within the shown values,
/// recording a guide scalar's ordinal among the guide scalars of its field.
pub fn focus_for_descriptor_in_values(
    values: &[PropertyCurrentValue],
    descriptor: &PropertyDescriptor,
    collection_index: Option<usize>,
) -> (focus: InspectorFocusIdentity)
    ensures
        focus == focus_spec(values@, *descriptor, collection_index),
{
    let guide_ordinal = match descriptor.target {
        PropertyTarget::GuideDimension(..) => guide_ordinal_of(values, descriptor),
        _ => None,
    };
    InspectorFocusIdentity::Descriptor {
        key: inspector_key(descriptor),
        field: descriptor.field,
        collection_index,
        guide_ordinal,
    }
}

/// Moves focus to one member of a reference collection.
pub fn focus_with_collection_index(focus: &InspectorFocusIdentity, collection_index: usize) -> (moved:
    InspectorFocusIdentity)
    ensures
        moved == (match *focus {
            InspectorFocusIdentity::Descriptor { key, field, guide_ordinal, .. } =>
                InspectorFocusIdentity::Descriptor {
                key,
                field,
                collection_index: Some(collection_index),
                guide_ordinal,
            },
        }),
{
    match *focus {
        InspectorFocusIdentity::Descriptor { key, field, guide_ordinal, .. } =>
            InspectorFocusIdentity::Descriptor {
            key,
            field,
            collection_index: Some(collection_index),
            guide_ordinal,
        },
    }
}

/// Reports whether a requested focus is exactly `candidate`.
pub fn focus_matches(
    requested: &Option<InspectorFocusIdentity>,
    candidate: &InspectorFocusIdentity,
) -> (matches: bool)
    ensures
        matches == (*requested == Some(*candidate)),
{
    match requested {
        Some(r) => *r == *candidate,
        None => false,
    }
}

/// An accepted command moves focus to the requested row; a rejected one
/// keeps the current focus.
pub fn focus_after_command_attempt(
    current: Option<InspectorFocusIdentity>,
    requested: Option<InspectorFocusIdentity>,
    accepted: bool,
) -> (focus: Option<InspectorFocusIdentity>)
    ensures
        focus == (if accepted {
            requested
        } else {
            current
        }),
{
    if accepted {
        requested
    } else {
        current
    }
}

/// The `n`-th value (from zero) satisfying `p`.
pub open spec fn nth_where(
    values: Seq<PropertyCurrentValue>,
    p: spec_fn(PropertyCurrentValue) -> bool,
    n: nat,
) -> Option<PropertyCurrentValue>
    decreases values.len(),
{
    if values.len() == 0 {
        None
    } else if p(values[0]) {
        if n == 0 {
            Some(values[0])
        } else {
            nth_where(values.skip(1), p, (n - 1) as nat)
        }
    } else {
        nth_where(values.skip(1), p, n)
    }
}

/// Where a focus lands after the shown values change: on its own row while
/// that row remains, else on the guide scalar of the same field and ordinal,
/// else on the first row of the same field, else nowhere.
pub open spec fn resolved_focus(
    values: Seq<PropertyCurrentValue>,
    focus: Option<InspectorFocusIdentity>,
) -> Option<InspectorFocusIdentity> {
    match focus {
        None => None,
        Some(InspectorFocusIdentity::Descriptor { key, field, collection_index, guide_ordinal }) => {
            if exists|i: int| 0 <= i < values.len() && key_of(values[i].descriptor) == key {
                focus
            } else {
                let replacement = match guide_ordinal {
                    Some(n) => nth_where(
                        values,
                        |v: PropertyCurrentValue| is_guide_scalar(v, field),
                        n as nat,
                    ),
                    None => nth_where(
                        values,
                        |v: PropertyCurrentValue| v.descriptor.field == field,
                        0,
                    ),
                };
                match replacement {
                    Some(r) => Some(focus_spec(values, r.descriptor, collection_index)),
                    None => None,
                }
            }
        },
    }
}

fn nth_guide_scalar(values: &[PropertyCurrentValue], field: PropertyFieldId, n: usize) -> (found:
    Option<PropertyCurrentValue>)
    ensures
        found == nth_where(values@, |v: PropertyCurrentValue| is_guide_scalar(v, field), n as nat),
{
    let ghost p = |v: PropertyCurrentValue| is_guide_scalar(v, field);
    let mut remaining: usize = n;
    let mut i: usize = 0;
    proof {
        assert(values@.skip(0) =~= values@);
    }
    while i < values.len()
        invariant
            0 <= i <= values@.len(),
            remaining <= n,
            p == (|v: PropertyCurrentValue| is_guide_scalar(v, field)),
            nth_where(values@, p, n as nat) == nth_where(
                values@.skip(i as int),
                p,
                remaining as nat,
            ),
        decreases values@.len() - i,
    {
        proof {
            lemma_skip_step(values@, i as int);
        }
        let v = values[i];
        let guide = match v.descriptor.target {
            PropertyTarget::GuideDimension(..) => true,
            _ => false,
        };
        if v.descriptor.field == field && guide {
            if remaining == 0 {
                return Some(v);
            }
            remaining = remaining - 1;
        }
        i = i + 1;
    }
    proof {
        assert(values@.skip(i as int) =~= Seq::<PropertyCurrentValue>::empty());
    }
    None
}

fn first_with_field(values: &[PropertyCurrentValue], field: PropertyFieldId) -> (found: Option<
    PropertyCurrentValue,
>)
    ensures
        found == nth_where(values@, |v: PropertyCurrentValue| v.descriptor.field == field, 0),
{
    let ghost p = |v: PropertyCurrentValue| v.descriptor.field == field;
    let mut i: usize = 0;
    proof {
        assert(values@.skip(0) =~= values@);
    }
    while i < values.len()
        invariant
            0 <= i <= values@.len(),
            p == (|v: PropertyCurrentValue| v.descriptor.field == field),
            nth_where(values@, p, 0) == nth_where(values@.skip(i as int), p, 0),
        decreases values@.len() - i,
    {
        proof {
            lemma_skip_step(values@, i as int);
        }
        if values[i].descriptor.field == field {
            return Some(values[i]);
        }
        i = i + 1;
    }
    proof {
        assert(values@.skip(i as int) =~= Seq::<PropertyCurrentValue>::empty());
    }
    None
}

fn has_key(values: &[PropertyCurrentValue], key: InspectorKey) -> (found: bool)
    ensures
        found == exists|i: int| 0 <= i < values@.len() && key_of(values@[i].descriptor) == key,
{
    let mut i: usize = 0;
    while i < values.len()
        invariant
            0 <= i <= values@.len(),
            forall|j: int| 0 <= j < i ==> key_of(values@[j].descriptor) != key,
        decreases values@.len() - i,
    {
        if inspector_key(&values[i].descriptor) == key {
            return true;
        }
        i = i + 1;
    }
    false
}

/// Resolves a retained focus against the values now shown.
pub fn resolve_descriptor_focus(
    values: &[PropertyCurrentValue],
    focus: Option<InspectorFocusIdentity>,
) -> (resolved: Option<InspectorFocusIdentity>)
    ensures
        resolved == resolved_focus(values@, focus),
{
    let Some(InspectorFocusIdentity::Descriptor { key, field, collection_index, guide_ordinal }) =
        focus else {
        return focus;
    };
    if has_key(values, key) {
        return focus;
    }
    let replacement = match guide_ordinal {
        Some(n) => nth_guide_scalar(values, field, n),
        None => first_with_field(values, field),
    };
    match replacement {
        Some(r) => Some(focus_for_descriptor_in_values(values, &r.descriptor, collection_index)),
        None => None,
    }
}

/// Resolves a retained focus after a document change against the values of
/// the selected channel; with no selected channel nothing is shown and the
/// focus clears.
pub fn resolve_focus_after_document_change(
    values: &[PropertyCurrentValue],
    selected_channel: Option<ChannelId>,
    effective_definition: Option<u64>,
    focus: Option<InspectorFocusIdentity>,
) -> (resolved: Option<InspectorFocusIdentity>)
    ensures
        resolved == resolved_focus(
            match selected_channel {
                Some(channel_id) => values@.filter(
                    |v: PropertyCurrentValue|
                        belongs_to_channel(v, channel_id, effective_definition),
                ),
                None => Seq::<PropertyCurrentValue>::empty(),
            },
            focus,
        ),
{
    let shown = match selected_channel {
        Some(channel_id) => selected_property_values(values, channel_id, effective_definition),
        None => Vec::new(),
    };
    resolve_descriptor_focus(shown.as_slice(), focus)
}

/// Values of the document, the selected channel, and the selected channel's
/// effective pattern definition.
pub open spec fn belongs_to_channel(
    value: PropertyCurrentValue,
    channel_id: ChannelId,
    effective_definition: Option<u64>,
) -> bool {
    match value.descriptor.target {
        PropertyTarget::Document => true,
        PropertyTarget::Channel(id) => id == channel_id,
        PropertyTarget::ChannelOutput(id, _) => id == channel_id,
        PropertyTarget::Definition(id) => effective_definition == Some(id),
        PropertyTarget::Mechanism(id, _) => effective_definition == Some(id),
        PropertyTarget::OutputLayer(id, _) => effective_definition == Some(id),
        PropertyTarget::GuideDimension(id, _, _) => effective_definition == Some(id),
    }
}

fn channel_owns(
    value: &PropertyCurrentValue,
    channel_id: ChannelId,
    effective_definition: Option<u64>,
) -> (owned: bool)
    ensures
        owned == belongs_to_channel(*value, channel_id, effective_definition),
{
    let definition = match value.descriptor.target {
        PropertyTarget::Document => {
            return true;
        },
        PropertyTarget::Channel(id) => {
            return id == channel_id;
        },
        PropertyTarget::ChannelOutput(id, _) => {
            return id == channel_id;
        },
        PropertyTarget::Definition(id) => id,
        PropertyTarget::Mechanism(id, _) => id,
        PropertyTarget::OutputLayer(id, _) => id,
        PropertyTarget::GuideDimension(id, _, _) => id,
    };
    match effective_definition {
        Some(effective) => effective == definition,
        None => false,
    }
}

/// Selects document and active-definition descriptor values for one channel.
///
/// `effective_definition` is the definition the document resolves for the
/// channel, if it resolves one; this filter never reconstructs inheritance.
pub fn selected_property_values(
    values: &[PropertyCurrentValue],
    channel_id: ChannelId,
    effective_definition: Option<u64>,
) -> (selected: Vec<PropertyCurrentValue>)
    ensures
        selected@ == values@.filter(
            |v: PropertyCurrentValue| belongs_to_channel(v, channel_id, effective_definition),
        ),
{
    let ghost p = |v: PropertyCurrentValue| belongs_to_channel(v, channel_id, effective_definition);
    let mut selected: Vec<PropertyCurrentValue> = Vec::new();
    let mut i: usize = 0;
    while i < values.len()
        invariant
            0 <= i <= values@.len(),
            p == (|v: PropertyCurrentValue| belongs_to_channel(v, channel_id, effective_definition)),
            selected@ == values@.take(i as int).filter(p),
        decreases values@.len() - i,
    {
        proof {
            reveal(Seq::filter);
            assert(values@.take(i + 1).drop_last() =~= values@.take(i as int));
        }
        if channel_owns(&values[i], channel_id, effective_definition) {
            selected.push(values[i]);
        }
        i = i + 1;
    }
    proof {
        assert(values@.take(values@.len() as int) =~= values@);
    }
    selected
}

/// Descriptor targets that edit a document-owned pattern definition.
pub open spec fn is_structural(descriptor: PropertyDescriptor) -> bool {
    !(descriptor.target is Document || descriptor.target is Channel)
}

/// Classifies descriptor targets that edit a document-owned pattern
/// definition. Channel and document targets remain in the channel inspector;
/// every other target belongs to the Pattern Editor.
pub fn is_structural_descriptor(descriptor: &PropertyDescriptor) -> (structural: bool)
    ensures
        structural == is_structural(*descriptor),
{
    match descriptor.target {
        PropertyTarget::Document | PropertyTarget::Channel(_) => false,
        _ => true,
    }
}

/// The values the channel sidebar shows: its non-structural values, of which
/// the document contributes only source selection and the aspect lock.
pub open spec fn shown_in_channel_inspector(value: PropertyCurrentValue) -> bool {
    !is_structural(value.descriptor) && (value.descriptor.target is Document ==> (
    value.descriptor.field == PropertyFieldId::SourceReference || value.descriptor.field
        == PropertyFieldId::DensityAspectLocked))
}

fn channel_inspector_shows(value: &PropertyCurrentValue) -> (shown: bool)
    ensures
        shown == shown_in_channel_inspector(*value),
{
    !is_structural_descriptor(&value.descriptor) && match value.descriptor.target {
        PropertyTarget::Document => match value.descriptor.field {
            PropertyFieldId::SourceReference | PropertyFieldId::DensityAspectLocked => true,
            _ => false,
        },
        _ => true,
    }
}

/// Returns only selected-channel instance and presentation values for the
/// sidebar inspector, so the sidebar cannot become an alternate Pattern
/// Editor.
pub fn channel_inspector_values(values: &[PropertyCurrentValue]) -> (shown: Vec<
    PropertyCurrentValue,
>)
    ensures
        shown@ == values@.filter(|v: PropertyCurrentValue| shown_in_channel_inspector(v)),
{
    let ghost p = |v: PropertyCurrentValue| shown_in_channel_inspector(v);
    let mut shown: Vec<PropertyCurrentValue> = Vec::new();
    let mut i: usize = 0;
    while i < values.len()
        invariant
            0 <= i <= values@.len(),
            p == (|v: PropertyCurrentValue| shown_in_channel_inspector(v)),
            shown@ == values@.take(i as int).filter(p),
        decreases values@.len() - i,
    {
        proof {
            reveal(Seq::filter);
            assert(values@.take(i + 1).drop_last() =~= values@.take(i as int));
        }
        if channel_inspector_shows(&values[i]) {
            shown.push(values[i]);
        }
        i = i + 1;
    }
    proof {
        assert(values@.take(values@.len() as int) =~= values@);
    }
    shown
}

/// Identifies the one authored resource and descriptor purpose exposed by a
/// private editor.
#[derive(Clone, Copy, Debug, PartialEq, Eq, Structural)]
pub enum PatternEditorPurpose {
    Grid,
    Mark,
}

/// The fields a purpose-specific editor shows.
pub open spec fn editor_field(field: PropertyFieldId, purpose: PatternEditorPurpose) -> bool {
    match purpose {
        PatternEditorPurpose::Grid => match field {
            PropertyFieldId::DensityAcrossX
            | PropertyFieldId::DensityAcrossY
            | PropertyFieldId::DensityAspectLocked
            | PropertyFieldId::RotationDegrees
            | PropertyFieldId::TranslationX
            | PropertyFieldId::TranslationY
            | PropertyFieldId::GuideBaselineAngle
            | PropertyFieldId::GuidePhase
            | PropertyFieldId::GuideSpacingMultiplier
            | PropertyFieldId::GuidePrototype
            | PropertyFieldId::GuideAuthoredStructure
            | PropertyFieldId::GuideArcCenterX
            | PropertyFieldId::GuideArcCenterY
            | PropertyFieldId::GuideArcRadius
            | PropertyFieldId::GuideArcStartAngle
            | PropertyFieldId::GuideArcSweepAngle
            | PropertyFieldId::GuideRepetition
            | PropertyFieldId::GuideOffsetSpacing
            | PropertyFieldId::GuideOffsetSides
            | PropertyFieldId::GuideOffsetCleanup
            | PropertyFieldId::GuideStackDirection
            | PropertyFieldId::GuideStackSpacingMultiplier
            | PropertyFieldId::IntersectionDimensions
            | PropertyFieldId::IntersectionMergeEpsilon
            | PropertyFieldId::AlongGuideDimensions
            | PropertyFieldId::AlongGuideIntervalMultiplier
            | PropertyFieldId::AlongGuidePhase
            | PropertyFieldId::CoverageGuardSteps
            | PropertyFieldId::CoverageAdditionalMargin => true,
            _ => false,
        },
        PatternEditorPurpose::Mark => match field {
            PropertyFieldId::MarkMinimumFill
            | PropertyFieldId::MarkMaximumFill
            | PropertyFieldId::ShapeRotationDegrees
            | PropertyFieldId::OutputSiteProduct
            | PropertyFieldId::OutputPrototype
            | PropertyFieldId::OutputAuthoredClosedShape
            | PropertyFieldId::OutputOrientation
            | PropertyFieldId::OutputOrientationDimension => true,
            _ => false,
        },
    }
}

/// Reports whether one structural descriptor belongs to the specified
/// purpose-specific editor.
pub fn descriptor_belongs_to_editor(field: &PropertyFieldId, purpose: PatternEditorPurpose) -> (belongs:
    bool)
    ensures
        belongs == editor_field(*field, purpose),
{
    match purpose {
        PatternEditorPurpose::Grid => match *field {
            PropertyFieldId::DensityAcrossX
            | PropertyFieldId::DensityAcrossY
            | PropertyFieldId::DensityAspectLocked
            | PropertyFieldId::RotationDegrees
            | PropertyFieldId::TranslationX
            | PropertyFieldId::TranslationY
            | PropertyFieldId::GuideBaselineAngle
            | PropertyFieldId::GuidePhase
            | PropertyFieldId::GuideSpacingMultiplier
            | PropertyFieldId::GuidePrototype
            | PropertyFieldId::GuideAuthoredStructure
            | PropertyFieldId::GuideArcCenterX
            | PropertyFieldId::GuideArcCenterY
            | PropertyFieldId::GuideArcRadius
            | PropertyFieldId::GuideArcStartAngle
            | PropertyFieldId::GuideArcSweepAngle
            | PropertyFieldId::GuideRepetition
            | PropertyFieldId::GuideOffsetSpacing
            | PropertyFieldId::GuideOffsetSides
            | PropertyFieldId::GuideOffsetCleanup
            | PropertyFieldId::GuideStackDirection
            | PropertyFieldId::GuideStackSpacingMultiplier
            | PropertyFieldId::IntersectionDimensions
            | PropertyFieldId::IntersectionMergeEpsilon
            | PropertyFieldId::AlongGuideDimensions
            | PropertyFieldId::AlongGuideIntervalMultiplier
            | PropertyFieldId::AlongGuidePhase
            | PropertyFieldId::CoverageGuardSteps
            | PropertyFieldId::CoverageAdditionalMargin => true,
            _ => false,
        },
        PatternEditorPurpose::Mark => match *field {
            PropertyFieldId::MarkMinimumFill
            | PropertyFieldId::MarkMaximumFill
            | PropertyFieldId::ShapeRotationDegrees
            | PropertyFieldId::OutputSiteProduct
            | PropertyFieldId::OutputPrototype
            | PropertyFieldId::OutputAuthoredClosedShape
            | PropertyFieldId::OutputOrientation
            | PropertyFieldId::OutputOrientationDimension => true,
            _ => false,
        },
    }
}

/// Returns only the selected purpose's descriptor values for one private
/// editor.
pub fn pattern_editor_values(values: &[PropertyCurrentValue], purpose: PatternEditorPurpose) -> (shown:
    Vec<PropertyCurrentValue>)
    ensures
        shown@ == values@.filter(|v: PropertyCurrentValue| editor_field(v.descriptor.field, purpose)),
{
    let ghost p = |v: PropertyCurrentValue| editor_field(v.descriptor.field, purpose);
    let mut shown: Vec<PropertyCurrentValue> = Vec::new();
    let mut i: usize = 0;
    while i < values.len()
        invariant
            0 <= i <= values@.len(),
            p == (|v: PropertyCurrentValue| editor_field(v.descriptor.field, purpose)),
            shown@ == values@.take(i as int).filter(p),
        decreases values@.len() - i,
    {
        proof {
            reveal(Seq::filter);
            assert(values@.take(i + 1).drop_last() =~= values@.take(i as int));
        }
        if descriptor_belongs_to_editor(&values[i].descriptor.field, purpose) {
            shown.push(values[i]);
        }
        i = i + 1;
    }
    proof {
        assert(values@.take(values@.len() as int) =~= values@);
    }
    shown
}

/// A Grid field never appears in the Mark editor, nor a Mark field in the
/// Grid editor.
pub proof fn lemma_editor_purposes_are_disjoint(field: PropertyFieldId)
    ensures
        !(editor_field(field, PatternEditorPurpose::Grid) && editor_field(
            field,
            PatternEditorPurpose::Mark,
        )),
{
}

/// The progressively disclosed work-limit and tolerance fields of the
/// Pattern Editor.
pub open spec fn advanced_safety_field(field: PropertyFieldId) -> bool {
    match field {
        PropertyFieldId::CoverageGuardSteps
        | PropertyFieldId::CoverageAdditionalMargin
        | PropertyFieldId::IntersectionMergeEpsilon
        | PropertyFieldId::RandomDensityModulation
        | PropertyFieldId::ArtworkWeightMappingComponent
        | PropertyFieldId::ArtworkWeightMappingPlacement
        | PropertyFieldId::ArtworkWeightMappingInverted
        | PropertyFieldId::ArtworkWeightMappingGain
        | PropertyFieldId::ArtworkWeightMappingBias
        | PropertyFieldId::ArtworkWeightStrength
        | PropertyFieldId::ArtworkWeightResponse
        | PropertyFieldId::RandomExclusion
        | PropertyFieldId::ExclusionMinimumCenterDistance
        | PropertyFieldId::VisibleMarkMargin
        | PropertyFieldId::VisibleMarkSizingPolicy
        | PropertyFieldId::RandomMaximumAttempts
        | PropertyFieldId::RandomMaximumNeighborChecks => true,
        _ => false,
    }
}

/// Identifies structural work-limit and tolerance controls that remain
/// progressively disclosed in the Pattern Editor.
pub fn is_pattern_editor_advanced_safety_descriptor(field: PropertyFieldId) -> (advanced: bool)
    ensures
        advanced == advanced_safety_field(field),
{
    match field {
        PropertyFieldId::CoverageGuardSteps
        | PropertyFieldId::CoverageAdditionalMargin
        | PropertyFieldId::IntersectionMergeEpsilon
        | PropertyFieldId::RandomDensityModulation
        | PropertyFieldId::ArtworkWeightMappingComponent
        | PropertyFieldId::ArtworkWeightMappingPlacement
        | PropertyFieldId::ArtworkWeightMappingInverted
        | PropertyFieldId::ArtworkWeightMappingGain
        | PropertyFieldId::ArtworkWeightMappingBias
        | PropertyFieldId::ArtworkWeightStrength
        | PropertyFieldId::ArtworkWeightResponse
        | PropertyFieldId::RandomExclusion
        | PropertyFieldId::ExclusionMinimumCenterDistance
        | PropertyFieldId::VisibleMarkMargin
        | PropertyFieldId::VisibleMarkSizingPolicy
        | PropertyFieldId::RandomMaximumAttempts
        | PropertyFieldId::RandomMaximumNeighborChecks => true,
        _ => false,
    }
}

/// Some value edits `field`.
pub open spec fn has_field(values: Seq<PropertyCurrentValue>, field: PropertyFieldId) -> bool {
    exists|i: int| 0 <= i < values.len() && values[i].descriptor.field == field
}

fn any_field(values: &[PropertyCurrentValue], field: PropertyFieldId) -> (found: bool)
    ensures
        found == has_field(values@, field),
{
    let mut i: usize = 0;
    while i < values.len()
        invariant
            0 <= i <= values@.len(),
            forall|j: int| 0 <= j < i ==> values@[j].descriptor.field != field,
        decreases values@.len() - i,
    {
        if values[i].descriptor.field == field {
            return true;
        }
        i = i + 1;
    }
    false
}

/// The artist-facing name of the active pattern.
pub open spec fn pattern_name(values: Seq<PropertyCurrentValue>) -> Seq<char> {
    if has_field(values, PropertyFieldId::RandomCharacter) {
        "Random"@
    } else if has_field(values, PropertyFieldId::GuideBaselineAngle) {
        "Grid"@
    } else {
        "Simple XY Grid"@
    }
}

/// Projects the selected channel's active pattern in artist-facing
/// vocabulary, without exposing a preset ID, recipe or mechanism.
pub fn artist_pattern_name(values: &[PropertyCurrentValue]) -> (name: String)
    ensures
        name@ == pattern_name(values@),
{
    if any_field(values, PropertyFieldId::RandomCharacter) {
        "Random".to_owned()
    } else if any_field(values, PropertyFieldId::GuideBaselineAngle) {
        "Grid".to_owned()
    } else {
        "Simple XY Grid".to_owned()
    }
}

proof fn lemma_nth_where_member(
    values: Seq<PropertyCurrentValue>,
    p: spec_fn(PropertyCurrentValue) -> bool,
    n: nat,
)
    ensures
        nth_where(values, p, n) matches Some(r) ==> p(r) && exists|i: int|
            0 <= i < values.len() && values[i] == r,
    decreases values.len(),
{
    if values.len() > 0 {
        let rest = values.skip(1);
        if p(values[0]) && n > 0 {
            lemma_nth_where_member(rest, p, (n - 1) as nat);
        } else if !p(values[0]) {
            lemma_nth_where_member(rest, p, n);
        }
        if let Some(r) = nth_where(values, p, n) {
            if values[0] == r && (p(values[0]) && n == 0) {
                assert(values[0] == r);
            } else {
                let i = choose|i: int| 0 <= i < rest.len() && rest[i] == r;
                assert(values[i + 1] == r);
            }
        }
    }
}

/// A resolved focus always names a row that is shown: resolution never
/// fabricates a focus target.
pub proof fn lemma_resolved_focus_is_shown(
    values: Seq<PropertyCurrentValue>,
    focus: Option<InspectorFocusIdentity>,
)
    ensures
        resolved_focus(values, focus) matches Some(InspectorFocusIdentity::Descriptor { key, .. })
            ==> exists|i: int| 0 <= i < values.len() && key_of(values[i].descriptor) == key,
{
    if let Some(InspectorFocusIdentity::Descriptor { key, field, collection_index, guide_ordinal }) =
        focus {
        if !(exists|i: int| 0 <= i < values.len() && key_of(values[i].descriptor) == key) {
            match guide_ordinal {
                Some(n) => lemma_nth_where_member(
                    values,
                    |v: PropertyCurrentValue| is_guide_scalar(v, field),
                    n as nat,
                ),
                None => lemma_nth_where_member(
                    values,
                    |v: PropertyCurrentValue| v.descriptor.field == field,
                    0,
                ),
            }
            if let Some(r) = resolved_focus(values, focus) {
                let replacement = match guide_ordinal {
                    Some(n) => nth_where(
                        values,
                        |v: PropertyCurrentValue| is_guide_scalar(v, field),
                        n as nat,
                    ),
                    None => nth_where(
                        values,
                        |v: PropertyCurrentValue| v.descriptor.field == field,
                        0,
                    ),
                };
                let rv = replacement->0;
                let i = choose|i: int| 0 <= i < values.len() && values[i] == rv;
                assert(key_of(values[i].descriptor) == key_of(rv.descriptor));
            }
        }
    }
}

/// Resolving a focus against unchanged values a second time changes nothing.
pub proof fn lemma_resolution_is_stable(
    values: Seq<PropertyCurrentValue>,
    focus: Option<InspectorFocusIdentity>,
)
    ensures
        resolved_focus(values, resolved_focus(values, focus)) == resolved_focus(values, focus),
{
    lemma_resolved_focus_is_shown(values, focus);
}

/// A focus on a row that is still shown is kept exactly, including its
/// collection index and guide ordinal.
pub proof fn lemma_present_focus_is_kept(
    values: Seq<PropertyCurrentValue>,
    focus: InspectorFocusIdentity,
    i: int,
)
    requires
        0 <= i < values.len(),
        focus matches InspectorFocusIdentity::Descriptor { key, .. } && key_of(
            values[i].descriptor,
        ) == key,
    ensures
        resolved_focus(values, Some(focus)) == Some(focus),
{
}

/// The definition a structural target edits.
pub open spec fn definition_of(target: PropertyTarget) -> Option<u64> {
    match target {
        PropertyTarget::Definition(id) => Some(id),
        PropertyTarget::Mechanism(id, _) => Some(id),
        PropertyTarget::OutputLayer(id, _) => Some(id),
        PropertyTarget::GuideDimension(id, _, _) => Some(id),
        _ => None,
    }
}

/// Returns the definition a structural target edits.
pub fn target_definition_id(target: PropertyTarget) -> (id: Option<u64>)
    ensures
        id == definition_of(target),
{
    match target {
        PropertyTarget::Definition(id)
        | PropertyTarget::Mechanism(id, _)
        | PropertyTarget::OutputLayer(id, _)
        | PropertyTarget::GuideDimension(id, _, _) => Some(id),
        _ => None,
    }
}

/// Returns the mechanism a target edits.
pub fn target_mechanism_id(target: PropertyTarget) -> (id: Option<u64>)
    ensures
        id == match target {
            PropertyTarget::Mechanism(_, m) => Some(m),
            PropertyTarget::GuideDimension(_, m, _) => Some(m),
            _ => None,
        },
{
    match target {
        PropertyTarget::Mechanism(_, id) | PropertyTarget::GuideDimension(_, id, _) => Some(id),
        _ => None,
    }
}

/// Returns the output layer a target edits.
pub fn target_output_layer_id(target: PropertyTarget) -> (id: Option<u64>)
    ensures
        id == match target {
            PropertyTarget::OutputLayer(_, l) => Some(l),
            _ => None,
        },
{
    match target {
        PropertyTarget::OutputLayer(_, id) => Some(id),
        _ => None,
    }
}

/// The number of values that edit `field`.
pub open spec fn field_count(values: Seq<PropertyCurrentValue>, field: PropertyFieldId) -> nat {
    values.filter(|v: PropertyCurrentValue| v.descriptor.field == field).len()
}

/// A private grid's direction count and whether it places sites at
/// intersections, for one to four directions; other drafts have none.
pub open spec fn grid_topology(values: Seq<PropertyCurrentValue>) -> Option<(usize, bool)> {
    let count = field_count(values, PropertyFieldId::GuideBaselineAngle);
    if 1 <= count <= 4 {
        Some((count as usize, has_field(values, PropertyFieldId::IntersectionDimensions)))
    } else {
        None
    }
}

/// Projects the active private grid's direction count and site mode.
pub fn draft_grid_topology(values: &[PropertyCurrentValue]) -> (topology: Option<(usize, bool)>)
    ensures
        topology == grid_topology(values@),
{
    let ghost p = |v: PropertyCurrentValue| v.descriptor.field == PropertyFieldId::GuideBaselineAngle;
    let mut count: usize = 0;
    let mut i: usize = 0;
    while i < values.len()
        invariant
            0 <= i <= values@.len(),
            p == (|v: PropertyCurrentValue| v.descriptor.field == PropertyFieldId::GuideBaselineAngle),
            count == values@.take(i as int).filter(p).len(),
            count <= i,
        decreases values@.len() - i,
    {
        proof {
            reveal(Seq::filter);
            assert(values@.take(i + 1).drop_last() =~= values@.take(i as int));
        }
        if values[i].descriptor.field == PropertyFieldId::GuideBaselineAngle {
            count = count + 1;
        }
        i = i + 1;
    }
    proof {
        assert(values@.take(values@.len() as int) =~= values@);
    }
    if !(1 <= count && count <= 4) {
        return None;
    }
    Some((count, any_field(values, PropertyFieldId::IntersectionDimensions)))
}

/// The summary of a private draft's pattern.
pub open spec fn draft_summary(values: Seq<PropertyCurrentValue>, purpose: PatternEditorPurpose) -> Seq<
    char,
> {
    match purpose {
        PatternEditorPurpose::Grid => if grid_topology(values) is Some {
            "Custom guide layout"@
        } else {
            "Simple XY Grid"@
        },
        PatternEditorPurpose::Mark => "Mark appearance"@,
    }
}

/// Summarizes a private draft's pattern for its editor.
pub fn draft_pattern_summary(values: &[PropertyCurrentValue], purpose: PatternEditorPurpose) -> (summary:
    &'static str)
    ensures
        summary@ == draft_summary(values@, purpose),
{
    match purpose {
        PatternEditorPurpose::Grid => if draft_grid_topology(values).is_some() {
            "Custom guide layout"
        } else {
            "Simple XY Grid"
        },
        PatternEditorPurpose::Mark => "Mark appearance",
    }
}

/// The one-based direction number shown for a guide scalar among the
/// editor's values; other descriptors and unmatched guides show direction 1.
pub fn draft_direction_ordinal(values: &[PropertyCurrentValue], descriptor: &PropertyDescriptor) -> (ordinal:
    usize)
    ensures
        ordinal == match guide_position(values@, *descriptor) {
            Some(n) => n + 1,
            None => 1,
        },
{
    let shown: usize = values.len();
    match guide_ordinal_of(values, descriptor) {
        Some(n) => {
            proof {
                assert(n < shown);
            }
            n + 1
        },
        None => 1,
    }
}

/// Where a reference control takes its choices from.
#[derive(Clone, Copy, Debug, PartialEq, Eq, Structural)]
pub enum ReferenceChoiceSource {
    /// The document's current source.
    CurrentSource,
    /// Every pattern definition of the document.
    Definitions,
    /// The mechanisms of the target's definition.
    Mechanisms,
    /// The guide dimensions of the target's definition.
    GuideDimensions,
    /// The control offers no choices.
    NoChoices,
}

/// Where a main-inspector reference control for `field` takes its choices.
pub open spec fn reference_source(field: PropertyFieldId) -> ReferenceChoiceSource {
    match field {
        PropertyFieldId::SourceReference => ReferenceChoiceSource::CurrentSource,
        PropertyFieldId::DefinitionSelection => ReferenceChoiceSource::Definitions,
        PropertyFieldId::OutputSiteProduct => ReferenceChoiceSource::Mechanisms,
        PropertyFieldId::OutputOrientationDimension => ReferenceChoiceSource::GuideDimensions,
        _ => ReferenceChoiceSource::NoChoices,
    }
}

/// Returns where a main-inspector reference control takes its choices.
pub fn reference_choice_source(field: PropertyFieldId) -> (source: ReferenceChoiceSource)
    ensures
        source == reference_source(field),
{
    match field {
        PropertyFieldId::SourceReference => ReferenceChoiceSource::CurrentSource,
        PropertyFieldId::DefinitionSelection => ReferenceChoiceSource::Definitions,
        PropertyFieldId::OutputSiteProduct => ReferenceChoiceSource::Mechanisms,
        PropertyFieldId::OutputOrientationDimension => ReferenceChoiceSource::GuideDimensions,
        _ => ReferenceChoiceSource::NoChoices,
    }
}

/// Returns where a main-inspector reference-collection control takes its
/// choices: only guide-dimension collections offer any.
pub fn collection_choice_source(field: PropertyFieldId) -> (source: ReferenceChoiceSource)
    ensures
        source == (if field == PropertyFieldId::IntersectionDimensions || field
            == PropertyFieldId::AlongGuideDimensions {
            ReferenceChoiceSource::GuideDimensions
        } else {
            ReferenceChoiceSource::NoChoices
        }),
{
    match field {
        PropertyFieldId::IntersectionDimensions | PropertyFieldId::AlongGuideDimensions =>
            ReferenceChoiceSource::GuideDimensions,
        _ => ReferenceChoiceSource::NoChoices,
    }
}

/// Returns where a private-draft reference control takes its choices: the
/// draft never offers source or definition selection.
pub fn draft_reference_choice_source(field: PropertyFieldId) -> (source: ReferenceChoiceSource)
    ensures
        source == match field {
            PropertyFieldId::OutputSiteProduct => ReferenceChoiceSource::Mechanisms,
            PropertyFieldId::OutputOrientationDimension
            | PropertyFieldId::IntersectionDimensions
            | PropertyFieldId::AlongGuideDimensions => ReferenceChoiceSource::GuideDimensions,
            _ => ReferenceChoiceSource::NoChoices,
        },
{
    match field {
        PropertyFieldId::OutputSiteProduct => ReferenceChoiceSource::Mechanisms,
        PropertyFieldId::OutputOrientationDimension
        | PropertyFieldId::IntersectionDimensions
        | PropertyFieldId::AlongGuideDimensions => ReferenceChoiceSource::GuideDimensions,
        _ => ReferenceChoiceSource::NoChoices,
    }
}

/// What a rebuild of the inspector does to keyboard focus and to the
/// structural edit context (pending drafts and the edit scope).
#[derive(Clone, Copy, Debug, PartialEq, Eq, Structural)]
pub struct InspectorRebuild {
    /// The focus kept after the rebuild.
    pub focus: Option<InspectorFocusIdentity>,
    /// Pending drafts are dropped and the edit scope returns to the
    /// selected channel's own copy.
    pub clear_structural_context: bool,
}

/// The selection moved away from a channel that was selected.
pub open spec fn selection_moved(previous: Option<ChannelId>, selected: Option<ChannelId>) -> bool {
    previous is Some && previous != selected
}

/// Rebuilds focus after a document change: when the selection moved away
/// from a selected channel, focus clears and so does the structural edit
/// context; otherwise the retained focus is resolved against the values the
/// selected channel now shows.
pub fn focus_after_rebuild(
    values: &[PropertyCurrentValue],
    previous: Option<ChannelId>,
    selected: Option<ChannelId>,
    effective_definition: Option<u64>,
    focus: Option<InspectorFocusIdentity>,
) -> (rebuild: InspectorRebuild)
    ensures
        rebuild.clear_structural_context == selection_moved(previous, selected),
        selection_moved(previous, selected) ==> rebuild.focus is None,
        !selection_moved(previous, selected) ==> rebuild.focus == resolved_focus(
            match selected {
                Some(channel_id) => values@.filter(
                    |v: PropertyCurrentValue|
                        belongs_to_channel(v, channel_id, effective_definition),
                ),
                None => Seq::<PropertyCurrentValue>::empty(),
            },
            focus,
        ),
{
    let moved = match previous {
        Some(p) => match selected {
            Some(q) => p != q,
            None => true,
        },
        None => false,
    };
    if moved {
        InspectorRebuild { focus: None, clear_structural_context: true }
    } else {
        InspectorRebuild {
            focus: resolve_focus_after_document_change(values, selected, effective_definition, focus),
            clear_structural_context: false,
        }
    }
}

/// The channel sidebar shows a document-owned value exactly when it is the
/// source selection or the aspect lock, shows every channel-owned value, and
/// never shows a value that edits a pattern definition.
pub proof fn lemma_channel_inspector_rows(value: PropertyCurrentValue)
    ensures
        value.descriptor.target is Document ==> (shown_in_channel_inspector(value) <==> (
        value.descriptor.field == PropertyFieldId::SourceReference || value.descriptor.field
            == PropertyFieldId::DensityAspectLocked)),
        value.descriptor.target is Channel ==> shown_in_channel_inspector(value),
        !(value.descriptor.target is Document || value.descriptor.target is Channel)
            ==> !shown_in_channel_inspector(value),
{
}

} // verus!
