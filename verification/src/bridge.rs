//! The decisions of the authentication bridge, one verified function per step
//! of a run, and the whole run in one piece.
//!
//! The unverified shell drives a run incrementally: it calls
//! [`policy_check_step`] after the native pre-check, [`callback_outcome`]
//! inside the completion callback, and [`resolve_received`] on what the
//! completion channel delivered. [`authenticate`] and [`authenticate_user`]
//! state the whole run over a [`CapabilityEvent`], the record of what the
//! capability did.

use vstd::prelude::*;
use crate::outcome::AuthOutcome;
use crate::outcome::AuthRequest;
use crate::outcome::AuthResult;
use crate::outcome::CapabilityEvent;
use crate::outcome::FailureKind;
use crate::outcome::PlatformSupport;
use crate::outcome::run_failure_kind;
use crate::outcome::is_failure_with;
use crate::outcome::message_or;
use crate::outcome::outcome_matches;
use crate::outcome::outcomes_agree;
use crate::outcome::resolved_message;
use crate::outcome::resolves_success;
use crate::text::generic_failure_message;
use crate::text::internal_error_message;
use crate::text::internal_error_text;
use crate::text::lemma_texts_nonempty;
use crate::text::success_text;
use crate::text::success_message;
use crate::text::unavailable_message;
use crate::text::unavailable_text;
use crate::text::unsupported_capability_message;
use crate::text::unsupported_capability_text;
use crate::text::unsupported_platform_message;
use crate::text::unsupported_platform_text;

verus! {

/// The message of a failed attempt: the platform diagnostic when it is
/// present and non-empty, else the fallback. Never an empty message.
fn failure_message(diagnostic: Option<String>, fallback: String) -> (r: String)
    ensures
        r@ == message_or(diagnostic, fallback@),
{
    match diagnostic {
        Some(d) => if d.as_str().is_empty() {
            fallback
        } else {
            d
        },
        None => fallback,
    }
}

/// The outcome when the policy cannot be evaluated at all: a failure carrying
/// the platform diagnostic, or the fixed unavailability text when none came.
pub fn unevaluable_outcome(diagnostic: Option<String>) -> (r: AuthOutcome)
    ensures
        is_failure_with(r, message_or(diagnostic, unavailable_text())),
{
    AuthOutcome::Failure(failure_message(diagnostic, unavailable_message()))
}

/// The decision after the policy pre-check. `None` means evaluation is
/// possible and the prompt may be shown; `Some(outcome)` is the final outcome
/// of the run, delivered without showing any prompt.
pub fn policy_check_step(can_evaluate: bool, diagnostic: Option<String>) -> (r: Option<
    AuthOutcome,
>)
    ensures
        can_evaluate ==> r is None,
        !can_evaluate ==> (r matches Some(o) && is_failure_with(
            o,
            message_or(diagnostic, unavailable_text()),
        )),
{
    if can_evaluate {
        None
    } else {
        Some(unevaluable_outcome(diagnostic))
    }
}

/// The decision inside the completion callback: success as it stands, failure
/// with the platform diagnostic, and the generic text when the diagnostic is
/// missing or empty.
pub fn callback_outcome(success: bool, diagnostic: Option<String>) -> (r: AuthOutcome)
    ensures
        outcome_matches((CapabilityEvent::Completed { success, diagnostic }), r),
{
    if success {
        AuthOutcome::Success
    } else {
        AuthOutcome::Failure(failure_message(diagnostic, generic_failure_message()))
    }
}

/// What the worker sends through the completion channel for a given event:
/// one outcome for every event on which it survives, nothing only when it was
/// dropped.
pub fn worker_send(event: CapabilityEvent) -> (r: Option<AuthOutcome>)
    ensures
        event is Dropped <==> r is None,
        r matches Some(o) ==> outcome_matches(event, o),
{
    match event {
        CapabilityEvent::Unevaluable { diagnostic } => Some(unevaluable_outcome(diagnostic)),
        CapabilityEvent::Completed { success, diagnostic } => Some(
            callback_outcome(success, diagnostic),
        ),
        CapabilityEvent::Dropped => None,
    }
}

/// The caller's side of the completion channel: the received outcome as it
/// stands, and a worker that died without sending surfaced as the bridge's
/// own failure — the caller's await always resolves.
pub fn resolve_received(received: Option<AuthOutcome>) -> (r: AuthOutcome)
    ensures
        received matches Some(o) ==> r == o,
        received is None ==> is_failure_with(r, internal_error_text()),
{
    match received {
        Some(o) => o,
        None => AuthOutcome::Failure(internal_error_message()),
    }
}

/// The one-shot completion handoff of a run: a single slot, created empty,
/// accepting at most one delivery, resolved once by the caller. It owns no
/// data beyond the one outcome in flight.
pub struct CompletionSlot {
    pub delivered: Option<AuthOutcome>,
}

impl CompletionSlot {
    /// A fresh handoff: nothing in flight.
    pub fn new() -> (r: CompletionSlot)
        ensures
            r.delivered is None,
    {
        CompletionSlot { delivered: None }
    }

    /// Delivers the one outcome. Delivery demands an empty slot, so a second
    /// delivery into the same handoff can never meet this contract:
    /// double-delivery is ruled out by construction.
    pub fn deliver(&mut self, outcome: AuthOutcome)
        requires
            old(self).delivered is None,
        ensures
            final(self).delivered == Some(outcome),
    {
        self.delivered = Some(outcome);
    }

    /// What the caller resumes with: the delivered outcome as it stands, or
    /// the bridge's own failure when nothing was ever delivered — the await
    /// always resolves.
    pub fn resolve(self) -> (r: AuthOutcome)
        ensures
            self.delivered matches Some(o) ==> r == o,
            self.delivered is None ==> is_failure_with(r, internal_error_text()),
    {
        resolve_received(self.delivered)
    }
}

/// One worker's life over the handoff: on every event on which it survives
/// it delivers exactly one outcome, and only the dropped worker delivers
/// nothing — which the receiver then resolves on its own.
pub fn run_worker(slot: &mut CompletionSlot, event: CapabilityEvent)
    requires
        old(slot).delivered is None,
    ensures
        event is Dropped ==> final(slot).delivered is None,
        !(event is Dropped) ==> (final(slot).delivered matches Some(o) && outcome_matches(
            event,
            o,
        )),
{
    match worker_send(event) {
        Some(outcome) => slot.deliver(outcome),
        None => (),
    }
}

/// All outcomes the bridge's contract admits for one run.
pub open spec fn bridge_admits(
    support: PlatformSupport,
    event: CapabilityEvent,
    o: AuthOutcome,
) -> bool {
    match support {
        PlatformSupport::Unsupported => is_failure_with(o, unsupported_capability_text()),
        PlatformSupport::Supported => outcome_matches(event, o),
    }
}

/// The bridge in one piece: exactly one outcome per request, whatever the
/// platform and the capability did. On an unsupported platform it
/// short-circuits without any native step.
pub fn authenticate(request: &AuthRequest, support: PlatformSupport, event: CapabilityEvent) -> (r:
    AuthOutcome)
    requires
        request.wf(),
    ensures
        bridge_admits(support, event, r),
{
    match support {
        PlatformSupport::Unsupported => AuthOutcome::Failure(unsupported_capability_message()),
        PlatformSupport::Supported => {
            let mut slot = CompletionSlot::new();
            run_worker(&mut slot, event);
            slot.resolve()
        },
    }
}

/// All results the command-level contract admits for one run: on an
/// unsupported platform the bare error text, otherwise the bridge's outcome.
pub open spec fn user_admits(
    support: PlatformSupport,
    event: CapabilityEvent,
    r: Result<AuthOutcome, String>,
) -> bool {
    match support {
        PlatformSupport::Unsupported => r matches Err(m) && m@ == unsupported_platform_text(),
        PlatformSupport::Supported => r matches Ok(o) && outcome_matches(event, o),
    }
}

/// The command-level entry point: the unsupported platform is routed as an
/// error value, every supported-platform run as an outcome.
pub fn authenticate_user(
    request: &AuthRequest,
    support: PlatformSupport,
    event: CapabilityEvent,
) -> (r: Result<AuthOutcome, String>)
    requires
        request.wf(),
    ensures
        user_admits(support, event, r),
{
    match support {
        PlatformSupport::Unsupported => Err(unsupported_platform_message()),
        PlatformSupport::Supported => {
            let mut slot = CompletionSlot::new();
            run_worker(&mut slot, event);
            Ok(slot.resolve())
        },
    }
}

/// The outcome flattened to the shape the command layer hands outward:
/// success carries the fixed success text, a failure carries its own message.
pub fn to_auth_result(outcome: AuthOutcome) -> (r: AuthResult)
    ensures
        outcome is Success ==> r.success && r.message@ == success_text(),
        outcome matches AuthOutcome::Failure(m) ==> !r.success && r.message@ == m@,
{
    match outcome {
        AuthOutcome::Success => AuthResult { success: true, message: success_message() },
        AuthOutcome::Failure(m) => AuthResult { success: false, message: m },
    }
}

/// Which kind of failure a run ends in, `None` exactly when it succeeds.
/// This names the taxonomy; the diagnostic text itself travels in the
/// outcome.
pub fn classify_run(support: PlatformSupport, event: &CapabilityEvent) -> (r: Option<FailureKind>)
    ensures
        r == run_failure_kind(support, *event),
{
    match support {
        PlatformSupport::Unsupported => Some(FailureKind::UnsupportedPlatform),
        PlatformSupport::Supported => match event {
            CapabilityEvent::Unevaluable { .. } => Some(FailureKind::PolicyUnevaluable),
            CapabilityEvent::Completed { success, .. } => if *success {
                None
            } else {
                Some(FailureKind::PromptDenied)
            },
            CapabilityEvent::Dropped => Some(FailureKind::BridgeInternalFailure),
        },
    }
}

/// The taxonomy agrees with the outcomes: a run is classified as no failure
/// exactly when every outcome the bridge admits for it is `Success`.
pub proof fn lemma_classification_matches_outcome(
    support: PlatformSupport,
    event: CapabilityEvent,
    o: AuthOutcome,
)
    requires
        bridge_admits(support, event, o),
    ensures
        run_failure_kind(support, event) is None <==> o is Success,
{
}

/// Exactly one outcome per run: for every platform state and capability
/// event the bridge's contract admits a single outcome, up to the message
/// characters — any two outcomes it admits for the same run agree. That the
/// run produces at least one is [`authenticate`] itself, which returns on
/// every input.
pub proof fn lemma_outcome_unique(
    support: PlatformSupport,
    event: CapabilityEvent,
    o1: AuthOutcome,
    o2: AuthOutcome,
)
    requires
        bridge_admits(support, event, o1),
        bridge_admits(support, event, o2),
    ensures
        outcomes_agree(o1, o2),
{
}

/// On an unsupported platform the command-level result is the bare error
/// text alone, the same whatever the capability would have reported: the
/// short circuit consults no platform state.
pub proof fn lemma_unsupported_ignores_capability(
    e1: CapabilityEvent,
    e2: CapabilityEvent,
    r1: Result<AuthOutcome, String>,
    r2: Result<AuthOutcome, String>,
)
    requires
        user_admits(PlatformSupport::Unsupported, e1, r1),
        user_admits(PlatformSupport::Unsupported, e2, r2),
    ensures
        r1 matches Err(m1) && r2 matches Err(m2) && m1@ == m2@,
{
}

/// A policy that cannot be evaluated resolves as a failure whose message is
/// never empty — the platform diagnostic when one came, the fixed
/// unavailability text otherwise — and the run is decided before any prompt.
pub proof fn lemma_unevaluable_fails_nonempty(diagnostic: Option<String>, o: AuthOutcome)
    requires
        outcome_matches((CapabilityEvent::Unevaluable { diagnostic }), o),
    ensures
        o matches AuthOutcome::Failure(m) && m@.len() > 0,
{
    lemma_texts_nonempty();
}

/// A callback that fired with the success flag resolves to `Success`,
/// whatever diagnostic rode along with it.
pub proof fn lemma_success_callback_succeeds(diagnostic: Option<String>, o: AuthOutcome)
    requires
        outcome_matches((CapabilityEvent::Completed { success: true, diagnostic }), o),
    ensures
        o is Success,
{
}

/// A callback that fired without the success flag resolves as a failure
/// whose message is never empty: the diagnostic when it is present and
/// non-empty, the generic text otherwise.
pub proof fn lemma_failed_callback_fails_nonempty(diagnostic: Option<String>, o: AuthOutcome)
    requires
        outcome_matches((CapabilityEvent::Completed { success: false, diagnostic }), o),
    ensures
        o matches AuthOutcome::Failure(m) && m@.len() > 0,
{
    lemma_texts_nonempty();
}

/// Runs are independent: each admissible outcome is fixed by its own run's
/// platform state and capability event alone, so two runs whose events
/// resolve differently never agree — no outcome is cross-delivered.
pub proof fn lemma_runs_independent(
    e1: CapabilityEvent,
    e2: CapabilityEvent,
    o1: AuthOutcome,
    o2: AuthOutcome,
)
    requires
        bridge_admits(PlatformSupport::Supported, e1, o1),
        bridge_admits(PlatformSupport::Supported, e2, o2),
        resolves_success(e1),
        !resolves_success(e2),
    ensures
        o1 is Success,
        o2 matches AuthOutcome::Failure(m) && m@ == resolved_message(e2),
        !outcomes_agree(o1, o2),
{
}

} // verus!
