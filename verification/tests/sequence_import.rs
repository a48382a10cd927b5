use toniator_app::sequence_import::{can_append, edit_order, sequence_sensitivity};

#[test]
fn reviewed_order_moves_and_removals_keep_selection_on_the_edited_frame() {
    let mut paths = vec!["a", "b", "c"];
    assert_eq!(edit_order(&mut paths, false, 0, Some(1)), Some(Some(1)));
    assert_eq!(paths, vec!["b", "a", "c"]);
    assert_eq!(edit_order(&mut paths, false, 1, Some(-1)), Some(Some(0)));
    assert_eq!(paths, vec!["a", "b", "c"]);
    assert_eq!(edit_order(&mut paths, false, 0, Some(-1)), None);
    assert_eq!(edit_order(&mut paths, false, 2, Some(1)), None);
    assert_eq!(edit_order(&mut paths, true, 1, Some(1)), None);
    assert_eq!(edit_order(&mut paths, false, 3, None), None);
    assert_eq!(paths, vec!["a", "b", "c"]);
    assert_eq!(edit_order(&mut paths, false, 2, None), Some(Some(1)));
    assert_eq!(paths, vec!["a", "b"]);
    assert_eq!(edit_order(&mut paths, false, 0, None), Some(Some(0)));
    assert_eq!(paths, vec!["b"]);
    assert_eq!(edit_order(&mut paths, false, 0, None), Some(None));
    assert!(paths.is_empty());
}

#[test]
fn sequence_controls_follow_selection_rate_and_work_in_flight() {
    let idle = sequence_sensitivity(false, 1, 3, true);
    assert!(idle.add && idle.remove && idle.earlier && idle.later && idle.import);
    let last = sequence_sensitivity(false, 2, 3, true);
    assert!(!last.later && last.earlier);
    let none = sequence_sensitivity(false, u32::MAX as usize, 3, true);
    assert!(!none.remove && !none.earlier && !none.later && none.import);
    let busy = sequence_sensitivity(true, 1, 3, true);
    assert!(!busy.add && !busy.list && !busy.rate && !busy.import);
    assert!(!sequence_sensitivity(false, 0, 3, false).import);
    assert!(!sequence_sensitivity(false, 0, 0, true).import);
    assert!(can_append(999_999, 1));
    assert!(!can_append(999_999, 2));
    assert!(!can_append(usize::MAX, 1));
}
