use auth_bridge::bridge::authenticate;
use auth_bridge::bridge::authenticate_user;
use auth_bridge::bridge::callback_outcome;
use auth_bridge::bridge::policy_check_step;
use auth_bridge::bridge::resolve_received;
use auth_bridge::bridge::to_auth_result;
use auth_bridge::bridge::unevaluable_outcome;
use auth_bridge::bridge::classify_run;
use auth_bridge::bridge::run_worker;
use auth_bridge::bridge::CompletionSlot;
use auth_bridge::outcome::AuthOutcome;
use auth_bridge::outcome::FailureKind;
use auth_bridge::outcome::AuthRequest;
use auth_bridge::outcome::AuthResult;
use auth_bridge::outcome::CapabilityEvent;
use auth_bridge::outcome::PlatformSupport;
use auth_bridge::text::generic_failure_message;
use auth_bridge::text::internal_error_message;
use auth_bridge::text::success_message;
use auth_bridge::text::unavailable_message;
use auth_bridge::text::unsupported_capability_message;
use auth_bridge::text::unsupported_platform_message;

fn request(reason: &str) -> AuthRequest {
    AuthRequest::new(reason.to_string())
}

#[test]
fn unsupported_platform_returns_error() {
    let r = authenticate_user(
        &request("x"),
        PlatformSupport::Unsupported,
        CapabilityEvent::Dropped,
    );
    assert_eq!(
        r,
        Err("Biometric authentication is only supported on macOS".to_string())
    );
}

#[test]
fn unsupported_platform_ignores_capability() {
    let with_success = authenticate_user(
        &request("x"),
        PlatformSupport::Unsupported,
        CapabilityEvent::Completed { success: true, diagnostic: None },
    );
    let with_failure = authenticate_user(
        &request("x"),
        PlatformSupport::Unsupported,
        CapabilityEvent::Unevaluable { diagnostic: Some("ignored".to_string()) },
    );
    assert_eq!(with_success, with_failure);
    assert_eq!(with_success, Err(unsupported_platform_message()));
}

#[test]
fn unsupported_platform_bridge_failure() {
    let r = authenticate(
        &request("x"),
        PlatformSupport::Unsupported,
        CapabilityEvent::Dropped,
    );
    assert_eq!(
        r,
        AuthOutcome::Failure("capability not supported on this platform".to_string())
    );
    assert_eq!(
        r,
        AuthOutcome::Failure(unsupported_capability_message())
    );
}

#[test]
fn unevaluable_policy_fast_fails_without_prompt() {
    let step = policy_check_step(false, None);
    match step {
        Some(AuthOutcome::Failure(message)) => {
            assert!(!message.is_empty());
            assert_eq!(
                message,
                "Biometric authentication not available on this device".to_string()
            );
        }
        other => panic!("expected a failure before any prompt, got {:?}", other),
    }
}

#[test]
fn evaluable_policy_proceeds_to_prompt() {
    assert_eq!(policy_check_step(true, None), None);
    assert_eq!(
        policy_check_step(true, Some("spurious".to_string())),
        None
    );
}

#[test]
fn unevaluable_policy_keeps_platform_diagnostic() {
    let r = unevaluable_outcome(Some("Biometry is locked out.".to_string()));
    assert_eq!(
        r,
        AuthOutcome::Failure("Biometry is locked out.".to_string())
    );
}

#[test]
fn unevaluable_policy_empty_diagnostic_falls_back() {
    let r = unevaluable_outcome(Some(String::new()));
    assert_eq!(r, AuthOutcome::Failure(unavailable_message()));
}

#[test]
fn successful_callback_yields_success() {
    assert_eq!(callback_outcome(true, None), AuthOutcome::Success);
    assert_eq!(
        callback_outcome(true, Some("stale diagnostic".to_string())),
        AuthOutcome::Success
    );
}

#[test]
fn failed_callback_keeps_diagnostic() {
    let r = callback_outcome(false, Some("Sensor mismatch".to_string()));
    assert_eq!(r, AuthOutcome::Failure("Sensor mismatch".to_string()));
}

#[test]
fn failed_callback_without_diagnostic_is_generic() {
    let r = callback_outcome(false, None);
    assert_eq!(r, AuthOutcome::Failure("Authentication failed".to_string()));
    assert_eq!(r, AuthOutcome::Failure(generic_failure_message()));
}

#[test]
fn failed_callback_empty_diagnostic_is_generic() {
    let r = callback_outcome(false, Some(String::new()));
    assert_eq!(r, AuthOutcome::Failure(generic_failure_message()));
}

#[test]
fn dropped_worker_resolves_instead_of_hanging() {
    let r = resolve_received(None);
    assert_eq!(
        r,
        AuthOutcome::Failure("internal communication error".to_string())
    );
    let whole_run = authenticate(
        &request("unlock notes"),
        PlatformSupport::Supported,
        CapabilityEvent::Dropped,
    );
    assert_eq!(whole_run, AuthOutcome::Failure(internal_error_message()));
}

#[test]
fn received_outcome_passes_through() {
    assert_eq!(
        resolve_received(Some(AuthOutcome::Success)),
        AuthOutcome::Success
    );
    assert_eq!(
        resolve_received(Some(AuthOutcome::Failure("no".to_string()))),
        AuthOutcome::Failure("no".to_string())
    );
}

#[test]
fn every_event_resolves_to_exactly_one_outcome() {
    let events = vec![
        CapabilityEvent::Unevaluable { diagnostic: None },
        CapabilityEvent::Unevaluable { diagnostic: Some("locked out".to_string()) },
        CapabilityEvent::Completed { success: true, diagnostic: None },
        CapabilityEvent::Completed { success: false, diagnostic: None },
        CapabilityEvent::Completed {
            success: false,
            diagnostic: Some("Sensor mismatch".to_string()),
        },
        CapabilityEvent::Dropped,
    ];
    let expected = vec![
        AuthOutcome::Failure(unavailable_message()),
        AuthOutcome::Failure("locked out".to_string()),
        AuthOutcome::Success,
        AuthOutcome::Failure(generic_failure_message()),
        AuthOutcome::Failure("Sensor mismatch".to_string()),
        AuthOutcome::Failure(internal_error_message()),
    ];
    for (event, want) in events.into_iter().zip(expected.into_iter()) {
        let got = authenticate(&request("pay"), PlatformSupport::Supported, event);
        assert_eq!(got, want);
    }
}

#[test]
fn concurrent_runs_resolve_independently() {
    let first = authenticate_user(
        &request("open vault"),
        PlatformSupport::Supported,
        CapabilityEvent::Completed { success: true, diagnostic: None },
    );
    let second = authenticate_user(
        &request("export keys"),
        PlatformSupport::Supported,
        CapabilityEvent::Completed {
            success: false,
            diagnostic: Some("Sensor mismatch".to_string()),
        },
    );
    assert_eq!(first, Ok(AuthOutcome::Success));
    assert_eq!(
        second,
        Ok(AuthOutcome::Failure("Sensor mismatch".to_string()))
    );
    assert_ne!(first, second);
}

#[test]
fn outcome_flattens_to_result_shape() {
    assert_eq!(
        to_auth_result(AuthOutcome::Success),
        AuthResult { success: true, message: success_message() }
    );
    assert_eq!(
        to_auth_result(AuthOutcome::Success).message,
        "Authentication successful".to_string()
    );
    assert_eq!(
        to_auth_result(AuthOutcome::Failure("Sensor mismatch".to_string())),
        AuthResult { success: false, message: "Sensor mismatch".to_string() }
    );
}

#[test]
fn empty_handoff_resolves_to_internal_failure() {
    let slot = CompletionSlot::new();
    assert_eq!(slot.delivered, None);
    assert_eq!(
        slot.resolve(),
        AuthOutcome::Failure(internal_error_message())
    );
}

#[test]
fn delivered_handoff_resolves_to_its_outcome() {
    let mut slot = CompletionSlot::new();
    slot.deliver(AuthOutcome::Success);
    assert_eq!(slot.resolve(), AuthOutcome::Success);
}

#[test]
fn worker_delivers_once_per_surviving_event() {
    let mut slot = CompletionSlot::new();
    run_worker(
        &mut slot,
        CapabilityEvent::Completed { success: false, diagnostic: None },
    );
    assert_eq!(
        slot.delivered,
        Some(AuthOutcome::Failure(generic_failure_message()))
    );

    let mut dropped = CompletionSlot::new();
    run_worker(&mut dropped, CapabilityEvent::Dropped);
    assert_eq!(dropped.delivered, None);
}

#[test]
fn runs_classify_into_the_failure_taxonomy() {
    assert_eq!(
        classify_run(PlatformSupport::Unsupported, &CapabilityEvent::Dropped),
        Some(FailureKind::UnsupportedPlatform)
    );
    assert_eq!(
        classify_run(
            PlatformSupport::Supported,
            &CapabilityEvent::Unevaluable { diagnostic: None }
        ),
        Some(FailureKind::PolicyUnevaluable)
    );
    assert_eq!(
        classify_run(
            PlatformSupport::Supported,
            &CapabilityEvent::Completed { success: true, diagnostic: None }
        ),
        None
    );
    assert_eq!(
        classify_run(
            PlatformSupport::Supported,
            &CapabilityEvent::Completed {
                success: false,
                diagnostic: Some("Sensor mismatch".to_string())
            }
        ),
        Some(FailureKind::PromptDenied)
    );
    assert_eq!(
        classify_run(PlatformSupport::Supported, &CapabilityEvent::Dropped),
        Some(FailureKind::BridgeInternalFailure)
    );
}

#[test]
fn request_keeps_its_reason() {
    let r = request("approve transfer");
    assert_eq!(r.reason(), &"approve transfer".to_string());
}
