use toniator_app::main_view::{MainViewMode, MainViewState};

#[test]
fn main_view_state_bounds_zoom_and_keeps_mode_independent() {
    let mut state = MainViewState::default();
    state.zoom_in();
    let zoom = state.zoom_percent();
    state.set_mode(MainViewMode::Source);
    assert_eq!(state.mode(), MainViewMode::Source);
    assert_eq!(state.zoom_percent(), zoom);
    for _ in 0..20 {
        state.zoom_in();
    }
    assert_eq!(state.zoom_percent(), 400);
    assert!(!state.can_zoom_in());
    for _ in 0..20 {
        state.zoom_out();
    }
    assert_eq!(state.zoom_percent(), 25);
    assert!(!state.can_zoom_out());
    state.fit();
    assert!(state.is_fit());
}

#[test]
fn zoom_labels_are_whole_percentages() {
    let mut state = MainViewState::new();
    assert_eq!(state.mode(), MainViewMode::Preview);
    assert!(state.is_fit());
    assert_eq!(state.zoom_label(), "100%");
    state.zoom_out();
    assert!(!state.is_fit());
    assert_eq!(state.zoom_label(), "67%");
    state.zoom_in();
    state.zoom_in();
    assert_eq!(state.zoom_label(), "150%");
    assert_eq!(state.zoom_index(), 5);
    assert_eq!(MainViewMode::default(), MainViewMode::Preview);
}
