//! What happens when a model request fails at the transport: whether the
//! websocket gives way to HTTP, whether the credentials are refreshed and
//! the request retried, which error ends the request otherwise, and how the
//! attempt is recorded.

use vstd::prelude::*;

verus! {

/// How the session authenticates.
#[derive(Clone, Copy, Debug, PartialEq, Eq, Structural)]
pub enum AuthMode {
    ApiKey,
    BedrockApiKey,
    Chatgpt,
    ChatgptAuthTokens,
    AgentIdentity,
    PersonalAccessToken,
}

/// The authentication family recorded with a request.
pub open spec fn spec_auth_mode_label(mode: AuthMode) -> Seq<char> {
    match mode {
        AuthMode::ApiKey | AuthMode::BedrockApiKey => "ApiKey"@,
        _ => "Chatgpt"@,
    }
}

/// The authentication family recorded with a request: API keys, or
/// ChatGPT-style sign-in (tokens, agent identity, personal access tokens).
pub fn auth_mode_label(mode: AuthMode) -> (r: &'static str)
    ensures
        r@ == spec_auth_mode_label(mode),
{
    match mode {
        AuthMode::ApiKey | AuthMode::BedrockApiKey => "ApiKey",
        AuthMode::Chatgpt | AuthMode::ChatgptAuthTokens | AuthMode::AgentIdentity
        | AuthMode::PersonalAccessToken => "Chatgpt",
    }
}

/// Whether the credentials are refreshed: only when a recovery is
/// configured and it has a step left.
pub fn runs_recovery(recovery_configured: bool, has_next_step: bool) -> (r: bool)
    ensures
        r == (recovery_configured && has_next_step),
{
    recovery_configured && has_next_step
}

/// How a recovery step ended.
#[derive(Clone, Copy, Debug, PartialEq, Eq, Structural)]
pub enum RecoveryStepOutcome {
    Succeeded,
    /// The refresh token can never work again.
    FailedPermanent,
    /// The refresh failed for a reason that may pass.
    FailedTransient,
}

/// What the request does next.
#[derive(Clone, Copy, Debug, PartialEq, Eq, Structural)]
pub enum UnauthorizedResolution {
    /// Retry the request with the refreshed credentials.
    Retry,
    /// Fail: the refresh token was rejected for good.
    RefreshTokenFailed,
    /// Fail with the I/O error of the refresh.
    RefreshIoFailed,
    /// Fail with the provider's error for the original response.
    ProviderError,
}

/// The record of a recovery attempt.
pub struct RecoveryRecord {
    pub mode: String,
    pub phase: String,
    pub outcome: &'static str,
    pub reason: Option<String>,
}

/// The resolution and the recorded outcome of a recovery step.
pub open spec fn spec_step_resolution(outcome: RecoveryStepOutcome) -> (
    UnauthorizedResolution,
    Seq<char>,
) {
    match outcome {
        RecoveryStepOutcome::Succeeded => (UnauthorizedResolution::Retry, "recovery_succeeded"@),
        RecoveryStepOutcome::FailedPermanent => (
            UnauthorizedResolution::RefreshTokenFailed,
            "recovery_failed_permanent"@,
        ),
        RecoveryStepOutcome::FailedTransient => (
            UnauthorizedResolution::RefreshIoFailed,
            "recovery_failed_transient"@,
        ),
    }
}

/// Resolves a request after a recovery step of the given mode and phase.
pub fn after_recovery_step(mode: &str, phase: &str, outcome: RecoveryStepOutcome) -> (r: (
    UnauthorizedResolution,
    RecoveryRecord,
))
    ensures
        r.0 == spec_step_resolution(outcome).0,
        r.1.mode@ == mode@,
        r.1.phase@ == phase@,
        r.1.outcome@ == spec_step_resolution(outcome).1,
        r.1.reason is None,
{
    let (resolution, label) = match outcome {
        RecoveryStepOutcome::Succeeded => (UnauthorizedResolution::Retry, "recovery_succeeded"),
        RecoveryStepOutcome::FailedPermanent => (
            UnauthorizedResolution::RefreshTokenFailed,
            "recovery_failed_permanent",
        ),
        RecoveryStepOutcome::FailedTransient => (
            UnauthorizedResolution::RefreshIoFailed,
            "recovery_failed_transient",
        ),
    };
    (
        resolution,
        RecoveryRecord {
            mode: String::from_str(mode),
            phase: String::from_str(phase),
            outcome: label,
            reason: None,
        },
    )
}

/// A configured recovery that did not run: its mode, its phase and why it
/// is unavailable.
pub struct IdleRecovery<'a> {
    pub mode: &'a str,
    pub phase: &'a str,
    pub unavailable_reason: &'a str,
}

/// Resolves a request whose credentials were not refreshed: it fails with
/// the provider's error, and the attempt is recorded as not run, with the
/// recovery's reason, or as `none` when no recovery is configured.
pub fn recovery_not_run(recovery: Option<IdleRecovery>) -> (r: (UnauthorizedResolution, RecoveryRecord))
    ensures
        r.0 == UnauthorizedResolution::ProviderError,
        r.1.outcome@ == "recovery_not_run"@,
        match recovery {
            Some(rec) => {
                &&& r.1.mode@ == rec.mode@
                &&& r.1.phase@ == rec.phase@
                &&& r.1.reason matches Some(reason) && reason@ == rec.unavailable_reason@
            },
            None => {
                &&& r.1.mode@ == "none"@
                &&& r.1.phase@ == "none"@
                &&& r.1.reason matches Some(reason) && reason@ == "auth_manager_missing"@
            },
        },
{
    let record = match recovery {
        Some(rec) => RecoveryRecord {
            mode: String::from_str(rec.mode),
            phase: String::from_str(rec.phase),
            outcome: "recovery_not_run",
            reason: Some(String::from_str(rec.unavailable_reason)),
        },
        None => RecoveryRecord {
            mode: String::from_str("none"),
            phase: String::from_str("none"),
            outcome: "recovery_not_run",
            reason: Some(String::from_str("auth_manager_missing")),
        },
    };
    (UnauthorizedResolution::ProviderError, record)
}

/// The HTTP status of an unauthorized request.
pub const HTTP_UNAUTHORIZED: u16 = 401;

/// The HTTP status that asks the client to use another protocol.
pub const HTTP_UPGRADE_REQUIRED: u16 = 426;

/// How a failed request or websocket connection is handled.
#[derive(Clone, Copy, Debug, PartialEq, Eq, Structural)]
pub enum TransportFailure {
    /// Stream over HTTP instead of the websocket.
    FallbackToHttp,
    /// Try to recover the credentials, then retry.
    Unauthorized,
    /// End the request with the provider's error.
    Other,
}

/// Classifies a failed request by its HTTP status (`None` when the failure
/// is not an HTTP response): 401 is unauthorized and, for a websocket
/// connection, 426 falls back to HTTP.
pub fn classify_transport_failure(http_status: Option<u16>, websocket: bool) -> (r:
    TransportFailure)
    ensures
        r == match http_status {
            Some(s) => if websocket && s == HTTP_UPGRADE_REQUIRED {
                TransportFailure::FallbackToHttp
            } else if s == HTTP_UNAUTHORIZED {
                TransportFailure::Unauthorized
            } else {
                TransportFailure::Other
            },
            None => TransportFailure::Other,
        },
{
    match http_status {
        Some(s) => {
            if websocket && s == HTTP_UPGRADE_REQUIRED {
                TransportFailure::FallbackToHttp
            } else if s == HTTP_UNAUTHORIZED {
                TransportFailure::Unauthorized
            } else {
                TransportFailure::Other
            }
        },
        None => TransportFailure::Other,
    }
}

/// What the next attempt of a request records about the unauthorized
/// response before it: whether it is a retry, and the recovery's mode and
/// phase.
pub struct PendingUnauthorizedRetry {
    pub retry_after_unauthorized: bool,
    pub recovery_mode: Option<String>,
    pub recovery_phase: Option<String>,
}

impl Default for PendingUnauthorizedRetry {
    /// A first attempt: not a retry.
    fn default() -> (r: Self)
        ensures
            !r.retry_after_unauthorized,
            r.recovery_mode is None,
            r.recovery_phase is None,
    {
        PendingUnauthorizedRetry {
            retry_after_unauthorized: false,
            recovery_mode: None,
            recovery_phase: None,
        }
    }
}

impl PendingUnauthorizedRetry {
    /// A retry after a recovery step of the given mode and phase.
    pub fn from_recovery(mode: String, phase: String) -> (r: Self)
        ensures
            r.retry_after_unauthorized,
            r.recovery_mode == Some(mode),
            r.recovery_phase == Some(phase),
    {
        PendingUnauthorizedRetry {
            retry_after_unauthorized: true,
            recovery_mode: Some(mode),
            recovery_phase: Some(phase),
        }
    }
}

} // verus!
