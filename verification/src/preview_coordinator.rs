//! Main-preview identity and last-success acceptance coordination.
//!
//! Only application-side identity is recorded here, so the engine remains
//! authoritative for document-token and scheduler-ticket acceptance.

use vstd::prelude::*;

verus! {

/// Pairs an engine ticket with the app workspace that submitted it.
#[derive(Clone, Copy, Debug, PartialEq, Eq, Structural)]
pub struct PreviewSubmission {
    /// Identifies the workspace that submitted the request.
    pub workspace_generation: u64,
    /// Identifies the scheduler request inside that workspace.
    pub ticket: u64,
}

/// Rejects results that originated from a replaced app workspace.
pub fn accepts_submission(
    current_workspace_generation: u64,
    submission: Option<PreviewSubmission>,
    completion_ticket: u64,
) -> (accepted: bool)
    ensures
        accepted == accepts(current_workspace_generation, submission, completion_ticket),
{
    match submission {
        Some(s) => s.workspace_generation == current_workspace_generation && s.ticket
            == completion_ticket,
        None => false,
    }
}

/// Tracks the current request and the last result accepted by the application.
///
/// The coordinator preserves a last accepted preview while a newer request is
/// pending or rejected. It never owns pixels, paintables, a document, or a
/// scheduler cache; callers install those only after engine acceptance.
#[derive(Clone, Copy, Debug, PartialEq, Eq, Structural)]
pub struct PreviewCoordinator {
    submission: Option<PreviewSubmission>,
    last_accepted_ticket: Option<u64>,
}

impl PreviewCoordinator {
    /// The pending request identity, if any.
    pub closed spec fn pending(self) -> Option<PreviewSubmission> {
        self.submission
    }

    /// The last ticket accepted by application identity rules, if any.
    pub closed spec fn accepted(self) -> Option<u64> {
        self.last_accepted_ticket
    }

    /// The coordinator after `submit(workspace_generation, ticket)`.
    pub closed spec fn after_submit(self, workspace_generation: u64, ticket: u64) -> Self {
        PreviewCoordinator {
            submission: Some(PreviewSubmission { workspace_generation, ticket }),
            ..self
        }
    }

    /// The coordinator after `accept(workspace_generation, ticket)`.
    pub closed spec fn after_accept(self, workspace_generation: u64, ticket: u64) -> Self {
        if accepts(workspace_generation, self.submission, ticket) {
            PreviewCoordinator { last_accepted_ticket: Some(ticket), ..self }
        } else {
            self
        }
    }

    /// The coordinator after `clear_submission()`.
    pub closed spec fn after_clear(self) -> Self {
        PreviewCoordinator { submission: None, ..self }
    }

    /// Creates a coordinator with no pending request and no accepted result.
    pub fn new() -> (coordinator: Self)
        ensures
            coordinator.pending() is None,
            coordinator.accepted() is None,
    {
        PreviewCoordinator { submission: None, last_accepted_ticket: None }
    }

    /// Records one submitted scheduler ticket for the current workspace.
    pub fn submit(&mut self, workspace_generation: u64, ticket: u64)
        ensures
            *final(self) == old(self).after_submit(workspace_generation, ticket),
            final(self).pending() == Some(PreviewSubmission { workspace_generation, ticket }),
            final(self).accepted() == old(self).accepted(),
    {
        self.submission = Some(PreviewSubmission { workspace_generation, ticket });
    }

    /// Clears only the pending identity when a workspace is replaced or closed.
    pub fn clear_submission(&mut self)
        ensures
            *final(self) == old(self).after_clear(),
            final(self).pending() is None,
            final(self).accepted() == old(self).accepted(),
    {
        self.submission = None;
    }

    /// Returns the current request identity for observational event evidence.
    pub fn submission(&self) -> (submission: Option<PreviewSubmission>)
        ensures
            submission == self.pending(),
    {
        self.submission
    }

    /// Accepts only the ticket submitted by this exact workspace generation.
    ///
    /// A rejected ticket leaves the last accepted ticket unchanged so callers
    /// can keep rendering the prior successful preview. Accepted tickets
    /// become the new last-success identity without clearing a future pending
    /// submission.
    pub fn accept(&mut self, workspace_generation: u64, ticket: u64) -> (accepted: bool)
        ensures
            accepted == accepts(workspace_generation, old(self).pending(), ticket),
            *final(self) == old(self).after_accept(workspace_generation, ticket),
            final(self).pending() == old(self).pending(),
            final(self).accepted() == (if accepted {
                Some(ticket)
            } else {
                old(self).accepted()
            }),
    {
        if !accepts_submission(workspace_generation, self.submission, ticket) {
            return false;
        }
        self.last_accepted_ticket = Some(ticket);
        true
    }

    /// Returns the last scheduler ticket accepted by application identity rules.
    pub fn last_accepted_ticket(&self) -> (ticket: Option<u64>)
        ensures
            ticket == self.accepted(),
    {
        self.last_accepted_ticket
    }
}

impl Default for PreviewCoordinator {
    /// Starts with no pending request and no accepted result.
    fn default() -> (coordinator: Self)
        ensures
            coordinator.pending() is None,
            coordinator.accepted() is None,
    {
        PreviewCoordinator::new()
    }
}

/// A completion whose generation and ticket match the pending submission.
pub open spec fn accepts(
    current_workspace_generation: u64,
    submission: Option<PreviewSubmission>,
    completion_ticket: u64,
) -> bool {
    submission matches Some(s) && s.workspace_generation == current_workspace_generation
        && s.ticket == completion_ticket
}

/// A submitted ticket is accepted when it completes for the workspace that
/// submitted it, and becomes the last accepted ticket.
pub proof fn lemma_submitted_ticket_is_accepted(
    coordinator: PreviewCoordinator,
    workspace_generation: u64,
    ticket: u64,
)
    ensures
        accepts(
            workspace_generation,
            coordinator.after_submit(workspace_generation, ticket).pending(),
            ticket,
        ),
        coordinator.after_submit(workspace_generation, ticket).after_accept(
            workspace_generation,
            ticket,
        ).accepted() == Some(ticket),
{
}

/// A completion from a replaced workspace, or for a superseded ticket, never
/// disturbs the last accepted ticket.
pub proof fn lemma_stale_completion_keeps_last_success(
    coordinator: PreviewCoordinator,
    workspace_generation: u64,
    ticket: u64,
)
    requires
        !accepts(workspace_generation, coordinator.pending(), ticket),
    ensures
        coordinator.after_accept(workspace_generation, ticket) == coordinator,
{
}

/// Once a request is superseded by a newer submission, the older ticket can
/// no longer be accepted, even within the same workspace.
pub proof fn lemma_superseded_ticket_is_rejected(
    coordinator: PreviewCoordinator,
    workspace_generation: u64,
    old_ticket: u64,
    new_ticket: u64,
)
    requires
        old_ticket != new_ticket,
    ensures
        !accepts(
            workspace_generation,
            coordinator.after_submit(workspace_generation, new_ticket).pending(),
            old_ticket,
        ),
{
}

/// Accepting a completion never clears or alters the pending submission.
pub proof fn lemma_accept_keeps_pending(
    coordinator: PreviewCoordinator,
    workspace_generation: u64,
    ticket: u64,
)
    ensures
        coordinator.after_accept(workspace_generation, ticket).pending() == coordinator.pending(),
{
}

/// What the engine made of a completion whose identity the application
/// accepted.
#[derive(Clone, Copy, Debug, PartialEq, Eq, Structural)]
pub enum EngineVerdict {
    /// The engine accepted it and its raster became a texture.
    Rendered,
    /// The engine accepted it but its raster could not become a texture.
    TextureFailed,
    /// The engine accepted it but it carries no result.
    NoResult,
    /// The engine did not accept it for the current session.
    NotAccepted,
    /// The engine reported an error.
    Failed,
}

/// Which error a kept preview is shown with.
#[derive(Clone, Copy, Debug, PartialEq, Eq, Structural)]
pub enum PreviewFailure {
    /// The pattern could not be rendered.
    Unrendered,
    /// The error the engine or the texture conversion reported.
    Reported,
}

/// What the window does with one main-preview completion.
#[derive(Clone, Copy, Debug, PartialEq, Eq, Structural)]
pub enum PreviewCompletionAction {
    /// The completion belongs to a replaced workspace or a superseded
    /// request: nothing changes.
    Ignore,
    /// Install the rendered preview as the accepted one.
    Install,
    /// Keep the last accepted preview, showing the error if there is one.
    KeepLast(Option<PreviewFailure>),
}

/// The action for a completion of `ticket`, given the engine's verdict.
pub open spec fn completion_action(
    current_workspace_generation: u64,
    submission: Option<PreviewSubmission>,
    ticket: u64,
    verdict: EngineVerdict,
) -> PreviewCompletionAction {
    if !accepts(current_workspace_generation, submission, ticket) {
        PreviewCompletionAction::Ignore
    } else {
        match verdict {
            EngineVerdict::Rendered => PreviewCompletionAction::Install,
            EngineVerdict::TextureFailed => PreviewCompletionAction::KeepLast(
                Some(PreviewFailure::Reported),
            ),
            EngineVerdict::NoResult => PreviewCompletionAction::KeepLast(
                Some(PreviewFailure::Unrendered),
            ),
            EngineVerdict::NotAccepted => PreviewCompletionAction::KeepLast(None),
            EngineVerdict::Failed => PreviewCompletionAction::KeepLast(Some(PreviewFailure::Reported)),
        }
    }
}

/// Decides what one main-preview completion does: only the pending request
/// of the current workspace can change the preview, and only a rendered
/// result replaces the last accepted one.
pub fn preview_completion_action(
    current_workspace_generation: u64,
    submission: Option<PreviewSubmission>,
    ticket: u64,
    verdict: EngineVerdict,
) -> (action: PreviewCompletionAction)
    ensures
        action == completion_action(current_workspace_generation, submission, ticket, verdict),
{
    if !accepts_submission(current_workspace_generation, submission, ticket) {
        return PreviewCompletionAction::Ignore;
    }
    match verdict {
        EngineVerdict::Rendered => PreviewCompletionAction::Install,
        EngineVerdict::TextureFailed | EngineVerdict::Failed => PreviewCompletionAction::KeepLast(
            Some(PreviewFailure::Reported),
        ),
        EngineVerdict::NoResult => PreviewCompletionAction::KeepLast(Some(PreviewFailure::Unrendered)),
        EngineVerdict::NotAccepted => PreviewCompletionAction::KeepLast(None),
    }
}

/// The message shown when a pattern could not be rendered.
pub open spec fn unrendered_text() -> Seq<char> {
    "Couldn’t render this pattern. Your last preview is still shown."@
}

/// Returns the message shown when a pattern could not be rendered.
pub fn unrendered_message() -> (message: &'static str)
    ensures
        message@ == unrendered_text(),
{
    "Couldn’t render this pattern. Your last preview is still shown."
}

/// The status a private draft shows after a completion its own gate
/// accepted: a rendered draft reports the update, any failure keeps the last
/// draft preview, and a completion the engine did not accept says nothing.
pub fn draft_completion_status(verdict: EngineVerdict) -> (status: Option<&'static str>)
    ensures
        match verdict {
            EngineVerdict::Rendered => status matches Some(text) && text@ == "Draft preview updated."@,
            EngineVerdict::NotAccepted => status is None,
            _ => status matches Some(text) && text@ == unrendered_text(),
        },
{
    match verdict {
        EngineVerdict::Rendered => Some("Draft preview updated."),
        EngineVerdict::NotAccepted => None,
        EngineVerdict::TextureFailed | EngineVerdict::NoResult | EngineVerdict::Failed => Some(
            unrendered_message(),
        ),
    }
}

/// Only the pending request of the current workspace installs a preview, and
/// only when it rendered; a completion that does not install leaves the last
/// accepted preview in place.
pub proof fn lemma_only_current_renders_install(
    current_workspace_generation: u64,
    submission: Option<PreviewSubmission>,
    ticket: u64,
    verdict: EngineVerdict,
)
    ensures
        completion_action(current_workspace_generation, submission, ticket, verdict)
            == PreviewCompletionAction::Install <==> accepts(
            current_workspace_generation,
            submission,
            ticket,
        ) && verdict == EngineVerdict::Rendered,
{
}

/// One call that changes a coordinator.
#[derive(Clone, Copy, Debug, PartialEq, Eq, Structural)]
pub enum CoordinatorCall {
    Submit { workspace_generation: u64, ticket: u64 },
    ClearSubmission,
    Accept { workspace_generation: u64, ticket: u64 },
}

/// The coordinator after one call.
pub open spec fn step(c: PreviewCoordinator, call: CoordinatorCall) -> PreviewCoordinator {
    match call {
        CoordinatorCall::Submit { workspace_generation, ticket } => c.after_submit(
            workspace_generation,
            ticket,
        ),
        CoordinatorCall::ClearSubmission => c.after_clear(),
        CoordinatorCall::Accept { workspace_generation, ticket } => c.after_accept(
            workspace_generation,
            ticket,
        ),
    }
}

/// The coordinator after `calls`, in order.
pub open spec fn run(c: PreviewCoordinator, calls: Seq<CoordinatorCall>) -> PreviewCoordinator
    decreases calls.len(),
{
    if calls.len() == 0 {
        c
    } else {
        step(run(c, calls.drop_last()), calls.last())
    }
}

/// The ticket of the latest accept among `calls` that returned true, if any.
pub open spec fn latest_success(c: PreviewCoordinator, calls: Seq<CoordinatorCall>) -> Option<u64>
    decreases calls.len(),
{
    if calls.len() == 0 {
        None
    } else {
        match calls.last() {
            CoordinatorCall::Accept { workspace_generation, ticket } if accepts(
                workspace_generation,
                run(c, calls.drop_last()).pending(),
                ticket,
            ) => Some(ticket),
            _ => latest_success(c, calls.drop_last()),
        }
    }
}

/// The last accepted ticket is that of the latest accept that returned
/// true; submissions and clears never change it, and before any successful
/// accept it is what the coordinator started with (none for a new one).
pub proof fn lemma_last_accepted_is_latest_success(c: PreviewCoordinator, calls: Seq<CoordinatorCall>)
    ensures
        run(c, calls).accepted() == match latest_success(c, calls) {
            Some(t) => Some(t),
            None => c.accepted(),
        },
    decreases calls.len(),
{
    if calls.len() > 0 {
        lemma_last_accepted_is_latest_success(c, calls.drop_last());
    }
}

proof fn lemma_run_concatenates(
    c: PreviewCoordinator,
    calls: Seq<CoordinatorCall>,
    more: Seq<CoordinatorCall>,
)
    ensures
        run(c, calls + more) == run(run(c, calls), more),
    decreases more.len(),
{
    if more.len() == 0 {
        assert(calls + more =~= calls);
    } else {
        assert((calls + more).drop_last() =~= calls + more.drop_last());
        assert((calls + more).last() == more.last());
        lemma_run_concatenates(c, calls, more.drop_last());
    }
}

/// For a new coordinator, `last_accepted_ticket()` after any sequence of
/// `submit`, `clear_submission` and `accept` calls is the ticket of the
/// latest `accept` that returned true, and none if no `accept` did.
pub proof fn lemma_new_coordinator_reports_latest_success(
    c: PreviewCoordinator,
    calls: Seq<CoordinatorCall>,
)
    requires
        c.accepted() is None,
    ensures
        run(c, calls).accepted() == latest_success(c, calls),
{
    lemma_last_accepted_is_latest_success(c, calls);
}

/// The last accepted preview is kept while a newer request is pending or
/// rejected: calls after which no `accept` returns true (submissions,
/// clears and rejected accepts) leave the last accepted ticket as it was.
pub proof fn lemma_pending_or_rejected_requests_keep_last_accepted(
    c: PreviewCoordinator,
    calls: Seq<CoordinatorCall>,
    more: Seq<CoordinatorCall>,
)
    requires
        latest_success(run(c, calls), more) is None,
    ensures
        run(c, calls + more).accepted() == run(c, calls).accepted(),
{
    lemma_run_concatenates(c, calls, more);
    lemma_last_accepted_is_latest_success(run(c, calls), more);
}

} // verus!
