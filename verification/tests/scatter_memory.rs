use toniator_app::channels::{ChannelId, InspectorTarget};
use toniator_app::inspector::PropertyFieldId;
use toniator_app::scatter_memory::{Memory, RandomCharacterKind, ScatterParameter, restoration_plan};

type Payload = (f64, f64, f64);

const EVEN: Payload = (7.5, 0.0, 0.0);
const CLUSTERED: Payload = (0.4, 12.0, 0.8);

#[test]
fn scatter_round_trip_survives_apply_reopen_and_copy_on_edit() {
    for target in [
        InspectorTarget::DocumentAll,
        InspectorTarget::Channel(ChannelId(1)),
    ] {
        let mut committed_memory: Memory<Payload> = Memory::new();
        committed_memory.observe(target, &[(RandomCharacterKind::Even, EVEN)]);
        let mut first_memory = committed_memory.clone();
        first_memory.observe(target, &[(RandomCharacterKind::RawUniform, (0.0, 0.0, 0.0))]);
        committed_memory = first_memory;
        let reopened_memory = committed_memory.clone();
        assert_eq!(
            reopened_memory.remembered(target, 0, RandomCharacterKind::Even),
            Some(EVEN),
            "switching back to Even restores the exact earlier spacing"
        );
        let mut cancelled_memory = committed_memory.clone();
        cancelled_memory.clear_target(target);
        assert!(!committed_memory.is_empty());
        assert!(cancelled_memory.is_empty());
    }
}

#[test]
fn observing_keeps_inactive_choices_per_slot_and_scope() {
    let all = InspectorTarget::DocumentAll;
    let cyan = InspectorTarget::Channel(ChannelId(2));
    let mut memory: Memory<Payload> = Memory::new();
    memory.observe(all, &[(RandomCharacterKind::Even, EVEN), (RandomCharacterKind::Clustered, CLUSTERED)]);
    memory.observe(cyan, &[(RandomCharacterKind::Clustered, CLUSTERED)]);
    memory.observe(all, &[(RandomCharacterKind::Clustered, CLUSTERED)]);
    assert_eq!(memory.remembered(all, 0, RandomCharacterKind::Even), Some(EVEN));
    assert_eq!(memory.remembered(all, 0, RandomCharacterKind::Clustered), Some(CLUSTERED));
    assert_eq!(memory.remembered(all, 1, RandomCharacterKind::Clustered), None, "removed slots are forgotten");
    assert_eq!(memory.remembered(cyan, 0, RandomCharacterKind::Clustered), Some(CLUSTERED));
    memory.clear_target(cyan);
    assert_eq!(memory.remembered(cyan, 0, RandomCharacterKind::Clustered), None);
    assert_eq!(memory.remembered(all, 0, RandomCharacterKind::Even), Some(EVEN));
    memory.clear_target(all);
    assert!(memory.is_empty(), "replacing ALL resets every use");
}

#[test]
fn active_payloads_replace_earlier_ones_of_the_same_kind() {
    let target = InspectorTarget::Channel(ChannelId(5));
    let mut memory: Memory<Payload> = Memory::new();
    memory.observe(target, &[(RandomCharacterKind::Even, EVEN)]);
    let wider = (9.0, 0.0, 0.0);
    memory.observe(target, &[(RandomCharacterKind::Even, wider)]);
    memory.observe(target, &[(RandomCharacterKind::Even, wider)]);
    assert_eq!(memory.remembered(target, 0, RandomCharacterKind::Even), Some(wider));
    assert_eq!(memory.remembered(target, 0, RandomCharacterKind::RawUniform), None);
    memory.observe(target, &[]);
    assert!(memory.is_empty());
}

#[test]
fn transition_back_to_an_earlier_kind_restores_its_payload() {
    let target = InspectorTarget::Channel(ChannelId(2));
    let mut memory: Memory<Payload> = Memory::new();
    memory.observe(target, &[(RandomCharacterKind::Even, EVEN)]);
    let now_clustered = [(40u64, RandomCharacterKind::Clustered, CLUSTERED)];
    let restored = memory.transition(target, &now_clustered, Some((40, RandomCharacterKind::Even)));
    assert_eq!(restored, Some(EVEN));
    let again = memory.transition(target, &now_clustered, Some((40, RandomCharacterKind::Clustered)));
    assert_eq!(again, Some(CLUSTERED));
    assert_eq!(memory.transition(target, &now_clustered, Some((41, RandomCharacterKind::Even))), None);
    assert_eq!(memory.transition(target, &now_clustered, None), None);
    assert_eq!(
        memory.transition(InspectorTarget::DocumentAll, &now_clustered, Some((40, RandomCharacterKind::Even))),
        None
    );
}

#[test]
fn transition_finds_the_first_slot_of_the_mechanism() {
    let target = InspectorTarget::DocumentAll;
    let mut memory: Memory<Payload> = Memory::new();
    let two = [
        (5u64, RandomCharacterKind::Even, EVEN),
        (6u64, RandomCharacterKind::Even, (1.0, 0.0, 0.0)),
    ];
    memory.observe(target, &[(RandomCharacterKind::Even, EVEN), (RandomCharacterKind::Even, (1.0, 0.0, 0.0))]);
    assert_eq!(memory.transition(target, &two, Some((6, RandomCharacterKind::Even))), Some((1.0, 0.0, 0.0)));
    assert_eq!(memory.transition(target, &two, Some((5, RandomCharacterKind::Even))), Some(EVEN));
}

#[test]
fn restoration_fills_only_the_fields_of_the_remembered_kind() {
    let fields = [
        PropertyFieldId::RandomCharacter,
        PropertyFieldId::RandomClusterDensity,
        PropertyFieldId::RandomEvenMinimumCenterDistance,
        PropertyFieldId::RandomClusterSpread,
        PropertyFieldId::RandomClusterStrength,
    ];
    assert_eq!(
        restoration_plan(RandomCharacterKind::Clustered, &fields),
        vec![
            (1, ScatterParameter::ClusterDensity),
            (3, ScatterParameter::ClusterSpread),
            (4, ScatterParameter::ClusterStrength),
        ]
    );
    assert_eq!(
        restoration_plan(RandomCharacterKind::Even, &fields),
        vec![(2, ScatterParameter::MinimumCenterDistance)]
    );
    assert!(restoration_plan(RandomCharacterKind::RawUniform, &fields).is_empty());
}
