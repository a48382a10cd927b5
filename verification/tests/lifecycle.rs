use toniator_app::lifecycle::{
    CompletionInstall, LifecycleAction, LifecycleDisposition, UnsavedDecision,
    WindowCloseController, WindowCloseRequest, accepts_draft_preview_terminal,
    accepts_numeric_commit_callback, begin_lifecycle, is_current_generation,
    lifecycle_completion_policy, request_window_close, resolve_unsaved_decision,
};

#[test]
fn draft_preview_terminal_gate_rejects_stale_epoch_and_ticket() {
    assert!(accepts_draft_preview_terminal(9, Some(14), 9, 14));
    assert!(!accepts_draft_preview_terminal(9, Some(14), 8, 14));
    assert!(!accepts_draft_preview_terminal(9, Some(14), 9, 13));
    assert!(!accepts_draft_preview_terminal(9, None, 9, 14));
}

#[test]
fn stale_lifecycle_completion_policy_preserves_current_workspace_atomically() {
    let load_candidate = ("replacement".to_owned(), 0u64);
    assert!(matches!(
        lifecycle_completion_policy(8, 7, load_candidate),
        CompletionInstall::Preserve
    ));
    let stale_save = ("other.toniator".to_owned(), 3u64);
    assert!(matches!(
        lifecycle_completion_policy(8, 7, stale_save),
        CompletionInstall::Preserve
    ));
    assert_eq!(
        lifecycle_completion_policy(8, 8, 5u32),
        CompletionInstall::Install(5)
    );
    assert!(is_current_generation(3, 3));
    assert!(!is_current_generation(3, 4));
}

#[test]
fn unsaved_decisions_and_save_follow_up_preserve_lifecycle_intent() {
    let action = LifecycleAction::Close;
    assert_eq!(
        begin_lifecycle(true, action),
        LifecycleDisposition::Prompt(action)
    );
    assert_eq!(
        resolve_unsaved_decision(action, UnsavedDecision::Cancel),
        LifecycleDisposition::Noop
    );
    assert_eq!(
        resolve_unsaved_decision(action, UnsavedDecision::Discard),
        LifecycleDisposition::Execute(action)
    );
    assert_eq!(
        resolve_unsaved_decision(action, UnsavedDecision::Save),
        LifecycleDisposition::SaveThen(action)
    );
    assert_eq!(
        begin_lifecycle(false, action),
        LifecycleDisposition::Execute(action)
    );
    assert_eq!(
        begin_lifecycle(true, action),
        LifecycleDisposition::Prompt(action)
    );
}

#[test]
fn window_close_controller_defers_once_and_releases_cancelled_or_failed_flows() {
    let mut controller = WindowCloseController::default();
    assert_eq!(
        request_window_close(&mut controller, true),
        WindowCloseRequest::Ignore,
        "a busy lifecycle cannot leave a close request pending"
    );
    assert_eq!(controller, WindowCloseController::default());

    assert_eq!(
        request_window_close(&mut controller, false),
        WindowCloseRequest::Dispatch
    );
    assert_eq!(
        begin_lifecycle(false, LifecycleAction::WindowClose),
        LifecycleDisposition::Execute(LifecycleAction::WindowClose)
    );
    assert!(controller.defer());
    assert_eq!(
        request_window_close(&mut controller, false),
        WindowCloseRequest::Ignore,
        "repeated clean close requests cannot schedule another close"
    );
    assert!(!controller.defer());
    assert!(controller.accept_deferred());
    assert_eq!(
        request_window_close(&mut controller, false),
        WindowCloseRequest::Proceed
    );

    let mut cancelled = WindowCloseController::default();
    assert_eq!(
        request_window_close(&mut cancelled, false),
        WindowCloseRequest::Dispatch
    );
    assert_eq!(
        begin_lifecycle(true, LifecycleAction::WindowClose),
        LifecycleDisposition::Prompt(LifecycleAction::WindowClose)
    );
    assert_eq!(
        resolve_unsaved_decision(LifecycleAction::WindowClose, UnsavedDecision::Cancel),
        LifecycleDisposition::Noop
    );
    cancelled.cancel();
    assert_eq!(
        request_window_close(&mut cancelled, false),
        WindowCloseRequest::Dispatch,
        "Cancel releases the next close request"
    );

    let mut discard = WindowCloseController::default();
    assert_eq!(
        request_window_close(&mut discard, false),
        WindowCloseRequest::Dispatch
    );
    assert_eq!(
        resolve_unsaved_decision(LifecycleAction::WindowClose, UnsavedDecision::Discard),
        LifecycleDisposition::Execute(LifecycleAction::WindowClose)
    );
    assert!(discard.defer());

    let mut save = WindowCloseController::default();
    assert_eq!(
        request_window_close(&mut save, false),
        WindowCloseRequest::Dispatch
    );
    assert_eq!(
        resolve_unsaved_decision(LifecycleAction::WindowClose, UnsavedDecision::Save),
        LifecycleDisposition::SaveThen(LifecycleAction::WindowClose)
    );
    assert_eq!(
        request_window_close(&mut save, true),
        WindowCloseRequest::Ignore,
        "Save keeps one WindowClose request in flight"
    );
    assert!(save.defer(), "successful Save re-enters one deferred close");

    let mut failed_save = WindowCloseController::default();
    assert_eq!(
        request_window_close(&mut failed_save, false),
        WindowCloseRequest::Dispatch
    );
    failed_save.cancel();
    assert_eq!(
        request_window_close(&mut failed_save, false),
        WindowCloseRequest::Dispatch,
        "Save failure, disconnect, stale completion, or Save As cancellation releases retry"
    );
}

#[test]
fn allowed_close_is_not_revoked_by_cancel() {
    let mut controller = WindowCloseController::new();
    assert_eq!(controller.request(), WindowCloseRequest::Dispatch);
    assert!(!controller.accept_deferred(), "nothing was deferred yet");
    assert!(controller.defer());
    assert!(controller.accept_deferred());
    controller.cancel();
    assert_eq!(controller.request(), WindowCloseRequest::Proceed);
    assert!(!controller.defer());
}

#[test]
fn pattern_editor_numeric_callback_gate_is_synchronous_and_reentrancy_safe() {
    let mut active = false;
    assert!(accepts_numeric_commit_callback(&mut active));
    assert!(!accepts_numeric_commit_callback(&mut active));
    active = false;
    assert!(accepts_numeric_commit_callback(&mut active));
}
