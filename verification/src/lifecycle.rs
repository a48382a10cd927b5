//! Document lifecycle routing: unsaved-work decisions, the window-close
//! handshake, and the generation gates that keep stale completions out.

use vstd::prelude::*;
use crate::preview_coordinator::{PreviewSubmission, accepts, accepts_submission};

verus! {

/// A lifecycle request that may have to pass the unsaved-work boundary.
#[derive(Clone, Copy, Debug, PartialEq, Eq, Structural)]
pub enum LifecycleAction {
    New,
    Open,
    Close,
    WindowClose,
}

/// The artist's answer to "Save changes before continuing?".
#[derive(Clone, Copy, Debug, PartialEq, Eq, Structural)]
pub enum UnsavedDecision {
    Cancel,
    Discard,
    Save,
}

/// Where a lifecycle request goes next.
#[derive(Clone, Copy, Debug, PartialEq, Eq, Structural)]
pub enum LifecycleDisposition {
    Execute(LifecycleAction),
    Prompt(LifecycleAction),
    SaveThen(LifecycleAction),
    Noop,
}

/// Routes a new lifecycle request: dirty content must be resolved first.
pub fn begin_lifecycle(dirty: bool, action: LifecycleAction) -> (disposition: LifecycleDisposition)
    ensures
        disposition == begin_lifecycle_spec(dirty, action),
{
    if dirty {
        LifecycleDisposition::Prompt(action)
    } else {
        LifecycleDisposition::Execute(action)
    }
}

/// Resolves the unsaved-work prompt for `action`.
pub fn resolve_unsaved_decision(action: LifecycleAction, decision: UnsavedDecision) -> (disposition:
    LifecycleDisposition)
    ensures
        disposition == resolve_spec(action, decision),
{
    match decision {
        UnsavedDecision::Cancel => LifecycleDisposition::Noop,
        UnsavedDecision::Discard => LifecycleDisposition::Execute(action),
        UnsavedDecision::Save => LifecycleDisposition::SaveThen(action),
    }
}

/// Every route keeps the requested action: nothing but Cancel drops it, and no
/// route substitutes another action.
pub proof fn lemma_lifecycle_routes_preserve_intent(
    dirty: bool,
    action: LifecycleAction,
    decision: UnsavedDecision,
)
    ensures
        !dirty ==> begin_lifecycle_spec(dirty, action) == LifecycleDisposition::Execute(action),
        dirty ==> begin_lifecycle_spec(dirty, action) == LifecycleDisposition::Prompt(action),
        resolve_spec(action, decision) == LifecycleDisposition::Noop <==> decision
            == UnsavedDecision::Cancel,
        match resolve_spec(action, decision) {
            LifecycleDisposition::Execute(a) => a == action,
            LifecycleDisposition::SaveThen(a) => a == action,
            LifecycleDisposition::Prompt(_) => false,
            LifecycleDisposition::Noop => true,
        },
{
}

/// The route of a new request.
pub open spec fn begin_lifecycle_spec(dirty: bool, action: LifecycleAction) -> LifecycleDisposition {
    if dirty {
        LifecycleDisposition::Prompt(action)
    } else {
        LifecycleDisposition::Execute(action)
    }
}

/// The route after an unsaved-work decision.
pub open spec fn resolve_spec(action: LifecycleAction, decision: UnsavedDecision) -> LifecycleDisposition {
    match decision {
        UnsavedDecision::Cancel => LifecycleDisposition::Noop,
        UnsavedDecision::Discard => LifecycleDisposition::Execute(action),
        UnsavedDecision::Save => LifecycleDisposition::SaveThen(action),
    }
}

/// What the window does with one close request.
#[derive(Clone, Copy, Debug, PartialEq, Eq, Structural)]
pub enum WindowCloseRequest {
    Dispatch,
    Ignore,
    Proceed,
}

/// The window-close handshake: one request in flight, deferred at most once,
/// and released again by Cancel or a failed save.
#[derive(Clone, Copy, Debug, PartialEq, Eq, Structural)]
pub struct WindowCloseController {
    requested: bool,
    deferred: bool,
    allowed: bool,
}

impl WindowCloseController {
    /// A close request is in flight.
    pub closed spec fn is_requested(self) -> bool {
        self.requested
    }

    /// The in-flight request has been deferred to the idle queue.
    pub closed spec fn is_deferred(self) -> bool {
        self.deferred
    }

    /// The window may now close.
    pub closed spec fn is_allowed(self) -> bool {
        self.allowed
    }

    /// The states the handshake can reach.
    pub open spec fn inv(self) -> bool {
        &&& self.is_deferred() ==> self.is_requested()
        &&& self.is_allowed() ==> self.is_requested() && !self.is_deferred()
    }

    /// The answer to one close request in this state.
    pub open spec fn request_result(self) -> WindowCloseRequest {
        if self.is_allowed() {
            WindowCloseRequest::Proceed
        } else if self.is_requested() {
            WindowCloseRequest::Ignore
        } else {
            WindowCloseRequest::Dispatch
        }
    }

    /// The state after one close request.
    pub closed spec fn after_request(self) -> Self {
        if self.allowed || self.requested {
            self
        } else {
            WindowCloseController { requested: true, ..self }
        }
    }

    /// The state after a Cancel or a failed save.
    pub closed spec fn after_cancel(self) -> Self {
        if self.allowed {
            self
        } else {
            WindowCloseController { requested: false, deferred: false, ..self }
        }
    }

    /// Whether deferring succeeds in this state.
    pub open spec fn can_defer(self) -> bool {
        self.is_requested() && !self.is_deferred() && !self.is_allowed()
    }

    /// The state after an attempt to defer.
    pub closed spec fn after_defer(self) -> Self {
        if self.can_defer() {
            WindowCloseController { deferred: true, ..self }
        } else {
            self
        }
    }

    /// Whether accepting the deferred close succeeds in this state.
    pub open spec fn can_accept_deferred(self) -> bool {
        self.is_requested() && self.is_deferred() && !self.is_allowed()
    }

    /// The state after an attempt to accept the deferred close.
    pub closed spec fn after_accept_deferred(self) -> Self {
        if self.can_accept_deferred() {
            WindowCloseController { deferred: false, allowed: true, ..self }
        } else {
            self
        }
    }

    /// The idle state: nothing requested, deferred or allowed.
    pub open spec fn is_idle(self) -> bool {
        !self.is_requested() && !self.is_deferred() && !self.is_allowed()
    }

    /// Creates an idle handshake.
    pub fn new() -> (controller: Self)
        ensures
            controller.is_idle(),
            controller.inv(),
    {
        WindowCloseController { requested: false, deferred: false, allowed: false }
    }

    /// Answers one close request: proceed once allowed, ignore while one is in
    /// flight, and otherwise dispatch a new one.
    pub fn request(&mut self) -> (answer: WindowCloseRequest)
        ensures
            answer == old(self).request_result(),
            *final(self) == old(self).after_request(),
            final(self).is_requested() == (old(self).is_requested() || !old(self).is_allowed()),
            final(self).is_deferred() == old(self).is_deferred(),
            final(self).is_allowed() == old(self).is_allowed(),
    {
        if self.allowed {
            WindowCloseRequest::Proceed
        } else if self.requested {
            WindowCloseRequest::Ignore
        } else {
            self.requested = true;
            WindowCloseRequest::Dispatch
        }
    }

    /// Releases an in-flight request that will not close the window.
    pub fn cancel(&mut self)
        ensures
            *final(self) == old(self).after_cancel(),
            final(self).is_requested() == (old(self).is_requested() && old(self).is_allowed()),
            final(self).is_deferred() == (old(self).is_deferred() && old(self).is_allowed()),
            final(self).is_allowed() == old(self).is_allowed(),
    {
        if !self.allowed {
            self.requested = false;
            self.deferred = false;
        }
    }

    /// Defers the in-flight request once.
    pub fn defer(&mut self) -> (deferred: bool)
        ensures
            deferred == old(self).can_defer(),
            *final(self) == old(self).after_defer(),
            final(self).is_requested() == old(self).is_requested(),
            final(self).is_deferred() == (old(self).is_deferred() || deferred),
            final(self).is_allowed() == old(self).is_allowed(),
    {
        if self.requested && !self.deferred && !self.allowed {
            self.deferred = true;
            true
        } else {
            false
        }
    }

    /// Turns the deferred request into permission to close.
    pub fn accept_deferred(&mut self) -> (accepted: bool)
        ensures
            accepted == old(self).can_accept_deferred(),
            *final(self) == old(self).after_accept_deferred(),
            final(self).is_requested() == old(self).is_requested(),
            final(self).is_deferred() == (old(self).is_deferred() && !accepted),
            final(self).is_allowed() == (old(self).is_allowed() || accepted),
    {
        if self.requested && self.deferred && !self.allowed {
            self.deferred = false;
            self.allowed = true;
            true
        } else {
            false
        }
    }
}

impl Default for WindowCloseController {
    /// Starts idle.
    fn default() -> (controller: Self)
        ensures
            controller.is_idle(),
    {
        WindowCloseController::new()
    }
}

/// A busy lifecycle ignores close requests without recording one.
pub fn request_window_close(controller: &mut WindowCloseController, lifecycle_busy: bool) -> (answer:
    WindowCloseRequest)
    ensures
        lifecycle_busy ==> answer == WindowCloseRequest::Ignore && *final(controller)
            == *old(controller),
        !lifecycle_busy ==> answer == old(controller).request_result() && *final(controller)
            == old(controller).after_request(),
        final(controller).is_requested() == (old(controller).is_requested() || (!lifecycle_busy
            && !old(controller).is_allowed())),
        final(controller).is_deferred() == old(controller).is_deferred(),
        final(controller).is_allowed() == old(controller).is_allowed(),
{
    if lifecycle_busy {
        WindowCloseRequest::Ignore
    } else {
        controller.request()
    }
}

/// Every handshake step keeps the reachable-state invariant.
pub proof fn lemma_window_close_steps_keep_invariant(c: WindowCloseController)
    requires
        c.inv(),
    ensures
        c.after_request().inv(),
        c.after_cancel().inv(),
        c.after_defer().inv(),
        c.after_accept_deferred().inv(),
{
}

/// A dispatched request stays the only one in flight: a second request is
/// ignored until the first is cancelled or allowed.
pub proof fn lemma_one_request_in_flight(c: WindowCloseController)
    requires
        c.inv(),
        c.request_result() == WindowCloseRequest::Dispatch,
    ensures
        c.after_request().request_result() == WindowCloseRequest::Ignore,
        c.after_request().after_request() == c.after_request(),
{
}

/// While a request is in flight, whether deferred or not, a further request
/// is ignored and changes nothing.
pub proof fn lemma_request_in_flight_is_ignored(c: WindowCloseController)
    requires
        c.inv(),
        c.is_requested() || c.is_deferred(),
        !c.is_allowed(),
    ensures
        c.request_result() == WindowCloseRequest::Ignore,
        c.after_request() == c,
{
}

/// A handshake state is determined by what it reports: two states that
/// agree on being requested, deferred and allowed are the same state.
pub proof fn lemma_state_is_what_it_reports(a: WindowCloseController, b: WindowCloseController)
    requires
        a.is_requested() == b.is_requested(),
        a.is_deferred() == b.is_deferred(),
        a.is_allowed() == b.is_allowed(),
    ensures
        a == b,
{
}

/// A request is deferred at most once.
pub proof fn lemma_defers_once(c: WindowCloseController)
    requires
        c.can_defer(),
    ensures
        !c.after_defer().can_defer(),
        c.after_defer().can_accept_deferred(),
{
}

/// Cancel releases the next request unless closing was already allowed.
pub proof fn lemma_cancel_releases_retry(c: WindowCloseController)
    requires
        !c.is_allowed(),
    ensures
        c.after_cancel().is_idle(),
        c.after_cancel().request_result() == WindowCloseRequest::Dispatch,
{
}

/// Once closing is allowed, every request proceeds and no step revokes it.
pub proof fn lemma_allowed_is_final(c: WindowCloseController)
    requires
        c.is_allowed(),
    ensures
        c.request_result() == WindowCloseRequest::Proceed,
        c.after_request() == c,
        c.after_cancel() == c,
        c.after_defer() == c,
        c.after_accept_deferred() == c,
{
}

/// The full clean path: dispatch, defer, accept, and then proceed.
pub proof fn lemma_clean_close_completes(c: WindowCloseController)
    requires
        c.is_idle(),
    ensures
        c.request_result() == WindowCloseRequest::Dispatch,
        c.after_request().can_defer(),
        c.after_request().after_defer().can_accept_deferred(),
        c.after_request().after_defer().after_accept_deferred().request_result()
            == WindowCloseRequest::Proceed,
{
}

/// Whether a lifecycle completion may replace the current workspace state.
#[derive(Clone, Copy, Debug, PartialEq, Eq)]
pub enum CompletionInstall<T> {
    Install(T),
    Preserve,
}

/// Installs a load or save completion only when it belongs to the current
/// workspace generation.
pub fn lifecycle_completion_policy<T>(
    current_generation: u64,
    candidate_generation: u64,
    candidate: T,
) -> (install: CompletionInstall<T>)
    ensures
        current_generation == candidate_generation ==> install == CompletionInstall::Install(
            candidate,
        ),
        current_generation != candidate_generation ==> install is Preserve,
{
    if current_generation == candidate_generation {
        CompletionInstall::Install(candidate)
    } else {
        CompletionInstall::Preserve
    }
}

/// Reports whether a completion belongs to the current generation.
pub fn is_current_generation(current: u64, candidate: u64) -> (current_match: bool)
    ensures
        current_match == (current == candidate),
{
    current == candidate
}

/// The main-preview gate: the completion must match the submission made by
/// the current workspace generation.
pub fn accepts_preview_submission(
    current_workspace_generation: u64,
    submission: Option<PreviewSubmission>,
    completion_ticket: u64,
) -> (accepted: bool)
    ensures
        accepted == accepts(current_workspace_generation, submission, completion_ticket),
{
    accepts_submission(current_workspace_generation, submission, completion_ticket)
}

/// Reports whether one private preview completion is the newest terminal
/// result for its draft epoch.
pub fn accepts_draft_preview_terminal(
    current_epoch: u64,
    pending_ticket: Option<u64>,
    completion_epoch: u64,
    completion_ticket: u64,
) -> (accepted: bool)
    ensures
        accepted == (current_epoch == completion_epoch && pending_ticket == Some(
            completion_ticket,
        )),
{
    current_epoch == completion_epoch && match pending_ticket {
        Some(ticket) => ticket == completion_ticket,
        None => false,
    }
}

/// Claims the one synchronous coordinate callback allowed until its caller
/// releases the flag.
///
/// A `false` result means an activation or focus-leave callback is already
/// committing the same entry.
pub fn accepts_numeric_commit_callback(active: &mut bool) -> (claimed: bool)
    ensures
        claimed == !*old(active),
        *final(active),
{
    let was_active = *active;
    *active = true;
    !was_active
}

} // verus!
