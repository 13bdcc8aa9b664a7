use solai_coder::auth_recovery::after_recovery_step;
use solai_coder::auth_recovery::auth_mode_label;
use solai_coder::auth_recovery::recovery_not_run;
use solai_coder::auth_recovery::runs_recovery;
use solai_coder::auth_recovery::AuthMode;
use solai_coder::auth_recovery::IdleRecovery;
use solai_coder::auth_recovery::PendingUnauthorizedRetry;
use solai_coder::auth_recovery::RecoveryStepOutcome;
use solai_coder::auth_recovery::UnauthorizedResolution;
use solai_coder::auth_recovery::classify_transport_failure;
use solai_coder::auth_recovery::TransportFailure;

#[test]
fn auth_modes_fall_into_two_families() {
    assert_eq!(auth_mode_label(AuthMode::ApiKey), "ApiKey");
    assert_eq!(auth_mode_label(AuthMode::BedrockApiKey), "ApiKey");
    assert_eq!(auth_mode_label(AuthMode::PersonalAccessToken), "Chatgpt");
    assert_eq!(auth_mode_label(AuthMode::AgentIdentity), "Chatgpt");
}

#[test]
fn recovery_runs_only_with_a_step_left() {
    assert!(runs_recovery(true, true));
    assert!(!runs_recovery(true, false));
    assert!(!runs_recovery(false, true));
}

#[test]
fn recovery_outcomes_decide_the_request() {
    let (resolution, record) = after_recovery_step("managed", "reload", RecoveryStepOutcome::Succeeded);
    assert_eq!(resolution, UnauthorizedResolution::Retry);
    assert_eq!(record.outcome, "recovery_succeeded");
    assert_eq!(record.mode, "managed");
    assert_eq!(record.phase, "reload");
    let (resolution, record) =
        after_recovery_step("managed", "refresh", RecoveryStepOutcome::FailedPermanent);
    assert_eq!(resolution, UnauthorizedResolution::RefreshTokenFailed);
    assert_eq!(record.outcome, "recovery_failed_permanent");
    let (resolution, record) =
        after_recovery_step("managed", "refresh", RecoveryStepOutcome::FailedTransient);
    assert_eq!(resolution, UnauthorizedResolution::RefreshIoFailed);
    assert_eq!(record.outcome, "recovery_failed_transient");
}

#[test]
fn recovery_not_run_is_recorded_with_its_reason() {
    let (resolution, record) = recovery_not_run(None);
    assert_eq!(resolution, UnauthorizedResolution::ProviderError);
    assert_eq!(record.mode, "none");
    assert_eq!(record.reason.as_deref(), Some("auth_manager_missing"));
    let (_, record) = recovery_not_run(Some(IdleRecovery {
        mode: "managed",
        phase: "done",
        unavailable_reason: "no_refresh_token",
    }));
    assert_eq!(record.outcome, "recovery_not_run");
    assert_eq!(record.phase, "done");
    assert_eq!(record.reason.as_deref(), Some("no_refresh_token"));
}

#[test]
fn transport_failures_are_classified_by_status() {
    assert_eq!(classify_transport_failure(Some(426), true), TransportFailure::FallbackToHttp);
    assert_eq!(classify_transport_failure(Some(426), false), TransportFailure::Other);
    assert_eq!(classify_transport_failure(Some(401), true), TransportFailure::Unauthorized);
    assert_eq!(classify_transport_failure(Some(401), false), TransportFailure::Unauthorized);
    assert_eq!(classify_transport_failure(Some(500), false), TransportFailure::Other);
    assert_eq!(classify_transport_failure(None, true), TransportFailure::Other);
}

#[test]
fn pending_retry_records_the_recovery() {
    let first = PendingUnauthorizedRetry::default();
    assert!(!first.retry_after_unauthorized);
    assert!(first.recovery_mode.is_none());
    let retry = PendingUnauthorizedRetry::from_recovery("managed".to_string(), "reload".to_string());
    assert!(retry.retry_after_unauthorized);
    assert_eq!(retry.recovery_mode.as_deref(), Some("managed"));
    assert_eq!(retry.recovery_phase.as_deref(), Some("reload"));
}
