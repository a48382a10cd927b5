use toniator_app::channels::ChannelId;
use toniator_app::inspector::{PropertyFieldId, PropertyTarget};
use toniator_app::paint::{
    ColorComponent, EndOverrideTarget, channel_easing, common, component, retime_overrides,
};
use toniator_app::presentation::Easing;

#[test]
fn paint_fields_map_to_their_components_only() {
    assert_eq!(component(PropertyFieldId::ColorRed), Some(ColorComponent::Red));
    assert_eq!(component(PropertyFieldId::ColorGreen), Some(ColorComponent::Green));
    assert_eq!(component(PropertyFieldId::ColorBlue), Some(ColorComponent::Blue));
    assert_eq!(component(PropertyFieldId::ColorAlpha), Some(ColorComponent::Alpha));
    assert_eq!(component(PropertyFieldId::Opacity), None);
}

#[test]
fn common_value_requires_unanimity() {
    assert_eq!(common::<u32>(&[]), None);
    assert_eq!(common(&[3, 3, 3]), Some(3));
    assert_eq!(common(&[3, 4, 3]), None);
    assert_eq!(common(&["a".to_owned()]), Some("a".to_owned()));
}

fn scalar(channel: u32, field: PropertyFieldId) -> EndOverrideTarget {
    EndOverrideTarget::Scalar(PropertyTarget::Channel(ChannelId(channel)), field)
}

#[test]
fn shown_easing_prefers_the_grouped_animation() {
    let overrides = [
        (scalar(1, PropertyFieldId::ColorRed), Easing::Hold),
        (EndOverrideTarget::Color(ChannelId(1)), Easing::SmoothStep),
        (EndOverrideTarget::Color(ChannelId(1)), Easing::QuadraticIn),
    ];
    assert_eq!(channel_easing(&overrides, ChannelId(1)), Some(Easing::SmoothStep));
}

#[test]
fn shown_easing_of_component_animations_is_unanimous_or_mixed() {
    assert_eq!(channel_easing(&[], ChannelId(1)), Some(Easing::Linear));
    let overrides = [
        (scalar(1, PropertyFieldId::ColorRed), Easing::Hold),
        (scalar(1, PropertyFieldId::Opacity), Easing::QuadraticOut),
        (scalar(2, PropertyFieldId::ColorRed), Easing::SmoothInOut),
        (scalar(1, PropertyFieldId::ColorAlpha), Easing::Hold),
    ];
    assert_eq!(channel_easing(&overrides, ChannelId(1)), Some(Easing::Hold));
    assert_eq!(channel_easing(&overrides, ChannelId(2)), Some(Easing::SmoothInOut));
    assert_eq!(channel_easing(&overrides, ChannelId(3)), Some(Easing::Linear));
    let mixed = [
        (scalar(1, PropertyFieldId::ColorRed), Easing::Hold),
        (scalar(1, PropertyFieldId::ColorBlue), Easing::Linear),
    ];
    assert_eq!(channel_easing(&mixed, ChannelId(1)), None);
}

#[test]
fn easing_edits_retime_only_the_edited_channels_paint() {
    let mut overrides = vec![
        (EndOverrideTarget::Color(ChannelId(1)), Easing::Linear),
        (scalar(1, PropertyFieldId::ColorAlpha), Easing::Linear),
        (scalar(1, PropertyFieldId::Opacity), Easing::Linear),
        (scalar(2, PropertyFieldId::ColorAlpha), Easing::Linear),
        (EndOverrideTarget::Scalar(PropertyTarget::Document, PropertyFieldId::ColorRed), Easing::Hold),
    ];
    retime_overrides(&mut overrides, &[ChannelId(1)], Easing::SmoothStep);
    assert_eq!(
        overrides,
        vec![
            (EndOverrideTarget::Color(ChannelId(1)), Easing::SmoothStep),
            (scalar(1, PropertyFieldId::ColorAlpha), Easing::SmoothStep),
            (scalar(1, PropertyFieldId::Opacity), Easing::Linear),
            (scalar(2, PropertyFieldId::ColorAlpha), Easing::Linear),
            (EndOverrideTarget::Scalar(PropertyTarget::Document, PropertyFieldId::ColorRed), Easing::Hold),
        ]
    );
}

#[test]
fn unanimous_easings_are_shared() {
    assert_eq!(common(&[Easing::Linear, Easing::Linear]), Some(Easing::Linear));
    assert_eq!(common(&[Easing::Linear, Easing::Hold]), None);
    assert!(Easing::SmoothStep == Easing::SmoothStep);
    assert!(Easing::SmoothStep != Easing::SmoothInOut);
}
