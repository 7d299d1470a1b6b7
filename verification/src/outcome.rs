//! The data the bridge works on: the request, the one-per-run outcome, the
//! flat result shape of the command layer, and the model of what the platform
//! capability did during a run.

use vstd::prelude::*;
use crate::text::generic_failure_text;
use crate::text::internal_error_text;
use crate::text::unavailable_text;

verus! {

/// One invocation's justification text, shown to the user by the platform
/// prompt. Created per invocation and discarded after the call returns.
#[derive(Debug, PartialEq, Eq)]
pub struct AuthRequest {
    pub reason: String,
}

impl AuthRequest {
    /// A request is meaningful when its justification is non-empty.
    pub open spec fn wf(&self) -> bool {
        self.reason@.len() > 0
    }

    pub fn new(reason: String) -> (r: AuthRequest)
        ensures
            r.reason@ == reason@,
    {
        AuthRequest { reason }
    }

    pub fn reason(&self) -> (r: &String)
        ensures
            r@ == self.reason@,
    {
        &self.reason
    }
}

/// The one result of a run: authentication succeeded, or it failed with a
/// human-readable diagnostic. Exactly one of these is produced per request.
#[derive(Debug, PartialEq, Eq)]
pub enum AuthOutcome {
    Success,
    Failure(String),
}

/// Whether `o` is a failure carrying exactly the characters `msg`.
pub open spec fn is_failure_with(o: AuthOutcome, msg: Seq<char>) -> bool {
    o matches AuthOutcome::Failure(m) && m@ == msg
}

/// Two outcomes agree when they are the same up to the message characters.
pub open spec fn outcomes_agree(o1: AuthOutcome, o2: AuthOutcome) -> bool {
    ||| (o1 is Success && o2 is Success)
    ||| (o1 matches AuthOutcome::Failure(m1) && o2 matches AuthOutcome::Failure(m2)
        && m1@ == m2@)
}

/// The flat shape the command layer hands outward: a success flag beside a
/// message. The unverified shell serializes a copy of this.
#[derive(Debug, PartialEq, Eq)]
pub struct AuthResult {
    pub success: bool,
    pub message: String,
}

/// Whether the running platform implements the capability. The capability is
/// selected at startup; every other platform short-circuits without a native
/// call.
#[derive(Debug, Clone, Copy, PartialEq, Eq, Structural)]
pub enum PlatformSupport {
    Supported,
    Unsupported,
}

/// What the platform capability did during one supported-platform run, as the
/// worker observes it.
#[derive(Debug, PartialEq, Eq)]
pub enum CapabilityEvent {
    /// The policy pre-check said evaluation is impossible (no hardware, not
    /// enrolled, locked out), with the platform diagnostic when one was
    /// decodable. No prompt is shown on this path.
    Unevaluable { diagnostic: Option<String> },
    /// The prompt ran and the completion callback fired — exactly once, on a
    /// framework-owned thread — with a success flag and, on failure, an
    /// optional diagnostic.
    Completed { success: bool, diagnostic: Option<String> },
    /// The worker terminated without sending anything: a defect in the
    /// bridge's own bookkeeping, never a reason to leave the caller hanging.
    Dropped,
}

/// The message a diagnostic yields: the platform text when it is present and
/// non-empty, else the fallback. An empty message is never propagated.
pub open spec fn message_or(diagnostic: Option<String>, fallback: Seq<char>) -> Seq<char> {
    match diagnostic {
        Some(d) => if d@.len() > 0 {
            d@
        } else {
            fallback
        },
        None => fallback,
    }
}

/// Whether a supported-platform run with this event resolves to `Success`:
/// only a callback that fired with the success flag does.
pub open spec fn resolves_success(e: CapabilityEvent) -> bool {
    e matches CapabilityEvent::Completed { success: true, .. }
}

/// The failure message a supported-platform run with this event resolves to.
/// Meaningful when the run does not succeed.
pub open spec fn resolved_message(e: CapabilityEvent) -> Seq<char> {
    match e {
        CapabilityEvent::Unevaluable { diagnostic } => message_or(diagnostic, unavailable_text()),
        CapabilityEvent::Completed { diagnostic, .. } => message_or(
            diagnostic,
            generic_failure_text(),
        ),
        CapabilityEvent::Dropped => internal_error_text(),
    }
}

/// The outcome a supported-platform run must deliver for a given event:
/// exactly one, up to the message characters.
pub open spec fn outcome_matches(e: CapabilityEvent, o: AuthOutcome) -> bool {
    if resolves_success(e) {
        o is Success
    } else {
        is_failure_with(o, resolved_message(e))
    }
}

/// The kinds of failure a run can end in. Every kind surfaces to the caller
/// as a value, never as an abort; `BridgeInternalFailure` alone marks a
/// defect of the bridge's own bookkeeping.
#[derive(Debug, Clone, Copy, PartialEq, Eq, Structural)]
pub enum FailureKind {
    /// The capability is not implemented on this platform; no native call
    /// was attempted.
    UnsupportedPlatform,
    /// The platform reported the policy cannot be evaluated; no prompt was
    /// shown.
    PolicyUnevaluable,
    /// The user failed or cancelled the prompt; reported by the completion
    /// callback.
    PromptDenied,
    /// The worker and channel handoff broke before any outcome was produced;
    /// the caller's await still resolves.
    BridgeInternalFailure,
}

/// How a run fails, if it does: `None` exactly on the runs that resolve to
/// `Success`.
pub open spec fn run_failure_kind(support: PlatformSupport, e: CapabilityEvent) -> Option<
    FailureKind,
> {
    match support {
        PlatformSupport::Unsupported => Some(FailureKind::UnsupportedPlatform),
        PlatformSupport::Supported => match e {
            CapabilityEvent::Unevaluable { .. } => Some(FailureKind::PolicyUnevaluable),
            CapabilityEvent::Completed { success, .. } => if success {
                None
            } else {
                Some(FailureKind::PromptDenied)
            },
            CapabilityEvent::Dropped => Some(FailureKind::BridgeInternalFailure),
        },
    }
}

} // verus!
