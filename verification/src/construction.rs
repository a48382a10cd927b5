//! Preflight for constructing a new authored structure: which single typed
//! target of the selected channel's active pattern the new structure will
//! attach to, or why none can be chosen.
//!
//! Construction never chooses among several guide dimensions or mark
//! outputs, and an ordinary straight grid asks for an explicit confirmation
//! before it can gain a guide path.

use vstd::prelude::*;
use crate::presentation::AuthoredStructureKind;

verus! {

/// The typed target a completed authored structure attaches to.
#[derive(Clone, Copy, Debug, PartialEq, Eq, Structural)]
pub enum AuthoredStructureAttachment {
    /// One guide dimension of a guide-dimensions mechanism.
    Guide { mechanism_id: u64, dimension_id: u64 },
    /// One mark output layer.
    Mark { output_layer_id: u64 },
    /// A private custom along-guide layout replacing a straight grid.
    GuideCustomAlongLayout,
}

/// What construction may do next.
#[derive(Clone, Copy, Debug, PartialEq, Eq, Structural)]
pub enum ConstructionPreflight {
    /// Start construction for this target.
    Ready(AuthoredStructureAttachment),
    /// Ask before switching a straight grid to a custom along-guide layout.
    ConfirmCustomAlongGuideLayout,
}

/// Why construction cannot start.
#[derive(Clone, Copy, Debug, PartialEq, Eq, Structural)]
pub enum PreflightError {
    /// The selected channel has no active pattern.
    NoActivePattern,
    /// The pattern has no compatible target.
    NoCompatibleTarget,
    /// The pattern has several compatible guide targets.
    MultipleTargets,
}

impl PreflightError {
    /// The artist-facing explanation.
    pub open spec fn message_spec(self) -> Seq<char> {
        match self {
            PreflightError::NoActivePattern => "The selected channel has no active pattern target."@,
            PreflightError::NoCompatibleTarget =>
                "This selected pattern has no compatible active target for the new path."@,
            PreflightError::MultipleTargets =>
                "This selected pattern has multiple compatible guide targets; choose one before creating a path."@,
        }
    }

    /// Returns the artist-facing explanation.
    pub fn message(self) -> (message: &'static str)
        ensures
            message@ == self.message_spec(),
    {
        match self {
            PreflightError::NoActivePattern => "The selected channel has no active pattern target.",
            PreflightError::NoCompatibleTarget =>
                "This selected pattern has no compatible active target for the new path.",
            PreflightError::MultipleTargets =>
                "This selected pattern has multiple compatible guide targets; choose one before creating a path.",
        }
    }
}

/// What preflight reads of one mechanism of a pattern definition.
#[derive(Clone, Debug)]
pub enum MechanismShape {
    /// Guide dimensions with their IDs, in order.
    GuideDimensions { id: u64, dimension_ids: Vec<u64> },
    /// Straight guides.
    StraightGuides,
    /// Sites at guide intersections.
    GuideIntersections,
    /// Any other mechanism.
    Other,
}

/// What preflight reads of a pattern definition: its mechanisms and the IDs
/// of its output layers, in order.
#[derive(Clone, Debug)]
pub struct DefinitionShape {
    pub mechanisms: Vec<MechanismShape>,
    pub output_layer_ids: Vec<u64>,
}

/// The guide targets a mechanism offers.
pub open spec fn mechanism_guides(mechanism: MechanismShape) -> Seq<AuthoredStructureAttachment> {
    match mechanism {
        MechanismShape::GuideDimensions { id, dimension_ids } => dimension_ids@.map_values(
            |d: u64| AuthoredStructureAttachment::Guide { mechanism_id: id, dimension_id: d },
        ),
        _ => Seq::empty(),
    }
}

/// The guide targets of `mechanisms`, in order.
pub open spec fn guide_targets(mechanisms: Seq<MechanismShape>) -> Seq<AuthoredStructureAttachment>
    decreases mechanisms.len(),
{
    if mechanisms.len() == 0 {
        Seq::empty()
    } else {
        guide_targets(mechanisms.drop_last()) + mechanism_guides(mechanisms.last())
    }
}

/// The targets a new structure of `kind` may attach to.
pub open spec fn targets(definition: DefinitionShape, kind: AuthoredStructureKind) -> Seq<
    AuthoredStructureAttachment,
> {
    match kind {
        AuthoredStructureKind::OpenPath => guide_targets(definition.mechanisms@),
        AuthoredStructureKind::ClosedShape => definition.output_layer_ids@.map_values(
            |l: u64| AuthoredStructureAttachment::Mark { output_layer_id: l },
        ),
    }
}

/// The definition is an ordinary straight grid: straight guides, then
/// intersections, with one output layer.
pub open spec fn is_straight_grid(definition: DefinitionShape) -> bool {
    &&& definition.mechanisms@.len() == 2
    &&& definition.mechanisms@[0] is StraightGuides
    &&& definition.mechanisms@[1] is GuideIntersections
    &&& definition.output_layer_ids@.len() == 1
}

/// The outcome of preflight.
pub open spec fn preflight(definition: Option<DefinitionShape>, kind: AuthoredStructureKind) -> Result<
    ConstructionPreflight,
    PreflightError,
> {
    match definition {
        None => Err(PreflightError::NoActivePattern),
        Some(d) => {
            let found = targets(d, kind);
            if found.len() == 1 {
                Ok(ConstructionPreflight::Ready(found[0]))
            } else if found.len() == 0 {
                if kind == AuthoredStructureKind::OpenPath && is_straight_grid(d) {
                    Ok(ConstructionPreflight::ConfirmCustomAlongGuideLayout)
                } else {
                    Err(PreflightError::NoCompatibleTarget)
                }
            } else {
                Err(PreflightError::MultipleTargets)
            }
        },
    }
}

fn collect_targets(definition: &DefinitionShape, kind: AuthoredStructureKind) -> (found: Vec<
    AuthoredStructureAttachment,
>)
    ensures
        found@ == targets(*definition, kind),
{
    let mut found: Vec<AuthoredStructureAttachment> = Vec::new();
    match kind {
        AuthoredStructureKind::OpenPath => {
            let mechanisms = &definition.mechanisms;
            let mut i: usize = 0;
            while i < mechanisms.len()
                invariant
                    0 <= i <= mechanisms@.len(),
                    found@ == guide_targets(mechanisms@.take(i as int)),
                decreases mechanisms@.len() - i,
            {
                proof {
                    assert(mechanisms@.take(i + 1).drop_last() =~= mechanisms@.take(i as int));
                }
                match &mechanisms[i] {
                    MechanismShape::GuideDimensions { id, dimension_ids } => {
                        let ghost start = found@;
                        let mut j: usize = 0;
                        while j < dimension_ids.len()
                            invariant
                                0 <= j <= dimension_ids@.len(),
                                found@ == start + dimension_ids@.take(j as int).map_values(
                                    |d: u64|
                                        AuthoredStructureAttachment::Guide {
                                            mechanism_id: *id,
                                            dimension_id: d,
                                        },
                                ),
                            decreases dimension_ids@.len() - j,
                        {
                            found.push(
                                AuthoredStructureAttachment::Guide {
                                    mechanism_id: *id,
                                    dimension_id: dimension_ids[j],
                                },
                            );
                            proof {
                                assert(start + dimension_ids@.take(j + 1).map_values(
                                    |d: u64|
                                        AuthoredStructureAttachment::Guide {
                                            mechanism_id: *id,
                                            dimension_id: d,
                                        },
                                ) =~= found@);
                            }
                            j = j + 1;
                        }
                        proof {
                            assert(dimension_ids@.take(dimension_ids@.len() as int)
                                =~= dimension_ids@);
                        }
                    },
                    _ => {
                        proof {
                            assert(found@ =~= guide_targets(mechanisms@.take(i as int))
                                + mechanism_guides(mechanisms@[i as int]));
                        }
                    },
                }
                i = i + 1;
            }
            proof {
                assert(mechanisms@.take(mechanisms@.len() as int) =~= mechanisms@);
            }
        },
        AuthoredStructureKind::ClosedShape => {
            let layers = &definition.output_layer_ids;
            let mut i: usize = 0;
            while i < layers.len()
                invariant
                    0 <= i <= layers@.len(),
                    found@ == layers@.take(i as int).map_values(
                        |l: u64| AuthoredStructureAttachment::Mark { output_layer_id: l },
                    ),
                decreases layers@.len() - i,
            {
                found.push(AuthoredStructureAttachment::Mark { output_layer_id: layers[i] });
                proof {
                    assert(layers@.take(i + 1).map_values(
                        |l: u64| AuthoredStructureAttachment::Mark { output_layer_id: l },
                    ) =~= found@);
                }
                i = i + 1;
            }
            proof {
                assert(layers@.take(layers@.len() as int) =~= layers@);
            }
        },
    }
    found
}

/// Resolves the one active typed target of the selected channel's pattern,
/// or the explicit confirmation required before drawing a guide on a
/// straight grid. `definition` is the channel's active pattern, if any.
pub fn authored_attachment_target(
    definition: Option<&DefinitionShape>,
    kind: AuthoredStructureKind,
) -> (outcome: Result<ConstructionPreflight, PreflightError>)
    ensures
        outcome == preflight(
            match definition {
                Some(d) => Some(*d),
                None => None,
            },
            kind,
        ),
{
    let definition = match definition {
        Some(d) => d,
        None => return Err(PreflightError::NoActivePattern),
    };
    let found = collect_targets(definition, kind);
    if found.len() == 1 {
        return Ok(ConstructionPreflight::Ready(found[0]));
    }
    if found.len() > 1 {
        return Err(PreflightError::MultipleTargets);
    }
    let straight_grid = definition.mechanisms.len() == 2 && match (
        &definition.mechanisms[0],
        &definition.mechanisms[1],
    ) {
        (MechanismShape::StraightGuides, MechanismShape::GuideIntersections) => true,
        _ => false,
    } && definition.output_layer_ids.len() == 1;
    if kind == AuthoredStructureKind::OpenPath && straight_grid {
        Ok(ConstructionPreflight::ConfirmCustomAlongGuideLayout)
    } else {
        Err(PreflightError::NoCompatibleTarget)
    }
}

/// Construction never guesses: it is ready only for the one target the
/// pattern offers, and several targets are always refused.
pub proof fn lemma_preflight_never_guesses(definition: DefinitionShape, kind: AuthoredStructureKind)
    ensures
        preflight(Some(definition), kind) matches Ok(ConstructionPreflight::Ready(t)) ==> targets(
            definition,
            kind,
        ) =~= seq![t],
        targets(definition, kind).len() > 1 ==> preflight(Some(definition), kind) == Err::<
            ConstructionPreflight,
            PreflightError,
        >(PreflightError::MultipleTargets),
{
}

} // verus!
