use toniator_app::channels::ChannelId;
use toniator_app::inspector::{PropertyFieldId, PropertyTarget};
use toniator_app::paint::EndOverrideTarget;
use toniator_app::presentation::Easing;
use toniator_app::temporal::{
    EndControls, TemporalCapability, eligible, end_controls, end_hint, remove_scalar_override,
    scalar_override_easing, set_scalar_easing,
};

fn opacity(channel: u32) -> EndOverrideTarget {
    EndOverrideTarget::Scalar(PropertyTarget::Channel(ChannelId(channel)), PropertyFieldId::Opacity)
}

#[test]
fn only_animatable_descriptors_get_end_controls() {
    assert!(eligible(TemporalCapability::Scalar));
    assert!(eligible(TemporalCapability::ScalarAndGroupedColor));
    assert!(!eligible(TemporalCapability::Static));
}

#[test]
fn rows_read_their_own_override_by_target_and_field() {
    let overrides = [
        (opacity(2), Easing::Hold),
        (EndOverrideTarget::Color(ChannelId(1)), Easing::SmoothStep),
        (opacity(1), Easing::QuadraticIn),
        (opacity(1), Easing::QuadraticOut),
    ];
    let channel = PropertyTarget::Channel(ChannelId(1));
    assert_eq!(scalar_override_easing(&overrides, channel, PropertyFieldId::Opacity), Some(Easing::QuadraticIn));
    assert_eq!(scalar_override_easing(&overrides, channel, PropertyFieldId::ColorRed), None);
    assert_eq!(
        scalar_override_easing(&overrides, PropertyTarget::Document, PropertyFieldId::Opacity),
        None
    );
}

#[test]
fn easing_changes_touch_only_the_rows_override() {
    let mut overrides = vec![
        (opacity(2), Easing::Hold),
        (opacity(1), Easing::Linear),
        (EndOverrideTarget::Color(ChannelId(1)), Easing::Linear),
    ];
    let channel = PropertyTarget::Channel(ChannelId(1));
    set_scalar_easing(&mut overrides, channel, PropertyFieldId::Opacity, Easing::SmoothInOut);
    assert_eq!(
        overrides,
        vec![
            (opacity(2), Easing::Hold),
            (opacity(1), Easing::SmoothInOut),
            (EndOverrideTarget::Color(ChannelId(1)), Easing::Linear),
        ]
    );
    assert_eq!(
        scalar_override_easing(&overrides, channel, PropertyFieldId::Opacity),
        Some(Easing::SmoothInOut)
    );
}

#[test]
fn reset_removes_only_the_rows_override_and_keeps_payloads() {
    let mut overrides = vec![(opacity(2), 0.25), (opacity(1), 0.5), (opacity(3), 0.75)];
    remove_scalar_override(&mut overrides, PropertyTarget::Channel(ChannelId(1)), PropertyFieldId::Opacity);
    assert_eq!(overrides, vec![(opacity(2), 0.25), (opacity(3), 0.75)]);
    remove_scalar_override(&mut overrides, PropertyTarget::Document, PropertyFieldId::Opacity);
    assert_eq!(overrides.len(), 2);
}

#[test]
fn end_controls_follow_the_stored_override() {
    assert_eq!(end_controls(None), EndControls { editable: false, easing_index: 0 });
    assert_eq!(end_controls(Some(Easing::SmoothStep)), EndControls { editable: true, easing_index: 4 });
    assert_eq!(end_hint(true), "This setting has an End override.");
    assert_eq!(end_hint(false), "End follows Start and inherited animation.");
}
