//! Maps structured drive and local errors to deterministic recovery decisions
//! for durable transfers.

use vstd::prelude::*;
use crate::error::{sat_add_i64, retry_after_at, saturating_add_i64, AppError, DriveApiErrorCode,
    DriveTransportKind, RetryAfter};
use crate::transfer::{TransferErrorKind, TransferOperation};

verus! {

/// Whether a transfer operation can change cloud state.
pub open spec fn modifies_remote(operation: TransferOperation) -> bool {
    match operation {
        TransferOperation::Create | TransferOperation::Update | TransferOperation::Delete
        | TransferOperation::Move | TransferOperation::Rename
        | TransferOperation::CreateFolder => true,
        TransferOperation::Download | TransferOperation::DownloadUpdate => false,
    }
}

/// Whether a transfer operation can change cloud state.
pub fn operation_modifies_remote(operation: TransferOperation) -> (b: bool)
    ensures
        b == modifies_remote(operation),
{
    match operation {
        TransferOperation::Create | TransferOperation::Update | TransferOperation::Delete
        | TransferOperation::Move | TransferOperation::Rename
        | TransferOperation::CreateFolder => true,
        TransferOperation::Download | TransferOperation::DownloadUpdate => false,
    }
}

/// Durable context that the classification needs.
#[derive(Debug, Clone, Copy, PartialEq, Eq, Structural)]
pub struct RecoveryContext {
    pub operation: TransferOperation,
    pub attempt_count: u32,
    pub now_ms: i64,
    pub jitter_ms: u64,
    pub auth_already_replayed: bool,
    pub max_attempts: u32,
}

/// Next step after a transfer failure.
#[derive(Debug, Clone, Copy, PartialEq, Eq, Structural)]
pub enum RecoveryDecision {
    WaitForNetwork,
    Backoff { next_retry_at: i64 },
    RefreshAuth,
    VerifyRemote,
    Fail,
}

/// Error kind together with its recovery decision.
#[derive(Debug, Clone, Copy, PartialEq, Eq, Structural)]
pub struct ClassifiedRecovery {
    pub kind: TransferErrorKind,
    pub decision: RecoveryDecision,
    pub consumes_retry_budget: bool,
}

/// A classification value.
pub open spec fn classified(kind: TransferErrorKind, decision: RecoveryDecision, consumes: bool) -> ClassifiedRecovery {
    ClassifiedRecovery { kind, decision, consumes_retry_budget: consumes }
}

/// A permanent failure: no automatic retry.
pub open spec fn permanent_spec(kind: TransferErrorKind) -> ClassifiedRecovery {
    classified(kind, RecoveryDecision::Fail, false)
}

/// An ambiguous remote write that must be verified against the cloud.
pub open spec fn verify_remote_spec() -> ClassifiedRecovery {
    classified(TransferErrorKind::RemoteAmbiguous, RecoveryDecision::VerifyRemote, false)
}

/// The automatic retry budget is used up.
pub open spec fn exhausted(context: RecoveryContext) -> bool {
    context.attempt_count >= context.max_attempts
}

/// Backoff in seconds after `attempts` attempts: doubling from one second,
/// capped at five minutes.
pub open spec fn backoff_seconds(attempts: nat) -> nat
    decreases attempts,
{
    if attempts == 0 {
        1
    } else {
        let previous = backoff_seconds((attempts - 1) as nat);
        if 2 * previous > 300 { 300 } else { 2 * previous }
    }
}

/// Next retry time: now plus the backoff and the jitter, the delay capped at
/// five minutes.
pub open spec fn backoff_at(context: RecoveryContext) -> i64 {
    let delay = backoff_seconds(context.attempt_count as nat) * 1000 + context.jitter_ms;
    sat_add_i64(context.now_ms, if delay > 300_000 { 300_000 } else { delay })
}

/// Classification of a transport failure.
pub open spec fn transport_spec(
    transport_kind: DriveTransportKind,
    reached: bool,
    context: RecoveryContext,
) -> ClassifiedRecovery {
    if transport_kind == DriveTransportKind::Connect {
        classified(TransferErrorKind::Network, RecoveryDecision::WaitForNetwork, false)
    } else if modifies_remote(context.operation) && reached {
        verify_remote_spec()
    } else {
        match transport_kind {
            DriveTransportKind::Network | DriveTransportKind::ResponseBody
            | DriveTransportKind::Connect =>
                classified(TransferErrorKind::Network, RecoveryDecision::WaitForNetwork, false),
            DriveTransportKind::Timeout =>
                classified(TransferErrorKind::Timeout, RecoveryDecision::WaitForNetwork, false),
            DriveTransportKind::Decode => if exhausted(context) {
                permanent_spec(TransferErrorKind::Server)
            } else {
                classified(TransferErrorKind::Server,
                    RecoveryDecision::Backoff { next_retry_at: backoff_at(context) }, true)
            },
            DriveTransportKind::Request | DriveTransportKind::Other =>
                permanent_spec(TransferErrorKind::Unknown),
        }
    }
}

/// A 5xx status that the policy retries.
pub open spec fn retryable_server_status(status: u16) -> bool {
    status == 500 || status == 502 || status == 503 || status == 504
}

/// Classification of an HTTP status.
pub open spec fn status_spec(
    status_code: Option<u16>,
    retry_after: Option<RetryAfter>,
    auth_replayed: bool,
    reached: bool,
    context: RecoveryContext,
) -> ClassifiedRecovery {
    match status_code {
        Some(status) => if status == 401 {
            if !auth_replayed {
                classified(TransferErrorKind::Auth, RecoveryDecision::RefreshAuth, false)
            } else {
                permanent_spec(TransferErrorKind::Auth)
            }
        } else if status == 429 {
            if exhausted(context) {
                permanent_spec(TransferErrorKind::RateLimit)
            } else {
                classified(TransferErrorKind::RateLimit, RecoveryDecision::Backoff {
                    next_retry_at: match retry_after {
                        Some(r) => retry_after_at(r, context.now_ms),
                        None => backoff_at(context),
                    },
                }, true)
            }
        } else if retryable_server_status(status) {
            if exhausted(context) {
                if modifies_remote(context.operation) && reached {
                    classified(TransferErrorKind::Server, RecoveryDecision::VerifyRemote, false)
                } else {
                    permanent_spec(TransferErrorKind::Server)
                }
            } else {
                classified(TransferErrorKind::Server,
                    RecoveryDecision::Backoff { next_retry_at: backoff_at(context) }, true)
            }
        } else if status == 400 || status == 409 || status == 422 {
            permanent_spec(TransferErrorKind::Validation)
        } else if status == 403 {
            permanent_spec(TransferErrorKind::Permission)
        } else {
            permanent_spec(TransferErrorKind::Unknown)
        },
        None => permanent_spec(TransferErrorKind::Unknown),
    }
}

/// The error code that marks an expired resumable upload session.
pub open spec fn session_expired_code() -> Seq<char> {
    "upload_session_expired"@
}

/// Classification of an error in a durable context.
pub open spec fn classify_spec(error: AppError, context: RecoveryContext) -> ClassifiedRecovery {
    match error {
        AppError::QuotaExceeded { .. } => permanent_spec(TransferErrorKind::Quota),
        AppError::Token { .. } | AppError::Auth { .. } => permanent_spec(TransferErrorKind::Auth),
        AppError::DriveApi {
            code,
            status_code,
            error_code,
            retry_after,
            transport_kind,
            request_may_have_reached_server,
            auth_already_replayed,
            ..
        } => if code == DriveApiErrorCode::QuotaExceeded {
            permanent_spec(TransferErrorKind::Quota)
        } else if error_code matches Some(ec) && ec@ == session_expired_code() {
            classified(TransferErrorKind::SessionExpired, RecoveryDecision::VerifyRemote, false)
        } else {
            match transport_kind {
                Some(t) => transport_spec(t, request_may_have_reached_server, context),
                None => status_spec(status_code, retry_after,
                    auth_already_replayed || context.auth_already_replayed,
                    request_may_have_reached_server, context),
            }
        },
        AppError::Config { .. } | AppError::Generic { .. } => permanent_spec(TransferErrorKind::Unknown),
    }
}

/// Map a runtime error to a recovery decision that can be persisted.
pub fn classify_transfer_error(error: &AppError, context: RecoveryContext) -> (r: ClassifiedRecovery)
    ensures
        r == classify_spec(*error, context),
{
    match error {
        AppError::QuotaExceeded { .. } => permanent(TransferErrorKind::Quota),
        AppError::Token { .. } | AppError::Auth { .. } => permanent(TransferErrorKind::Auth),
        AppError::DriveApi {
            code,
            status_code,
            error_code,
            retry_after,
            transport_kind,
            request_may_have_reached_server,
            auth_already_replayed,
            ..
        } => {
            if let DriveApiErrorCode::QuotaExceeded = code {
                return permanent(TransferErrorKind::Quota);
            }
            if let Some(ec) = error_code {
                proof {
                    reveal_strlit("upload_session_expired");
                }
                if crate::paths::str_equal(ec.as_str(), "upload_session_expired") {
                    return ClassifiedRecovery {
                        kind: TransferErrorKind::SessionExpired,
                        decision: RecoveryDecision::VerifyRemote,
                        consumes_retry_budget: false,
                    };
                }
            }
            if let Some(t) = transport_kind {
                return classify_transport(*t, *request_may_have_reached_server, context);
            }
            classify_status(
                *status_code,
                *retry_after,
                *auth_already_replayed || context.auth_already_replayed,
                *request_may_have_reached_server,
                context,
            )
        },
        AppError::Config { .. } | AppError::Generic { .. } => permanent(TransferErrorKind::Unknown),
    }
}

/// Classify a network failure by its stage and whether the request may have
/// reached the server.
fn classify_transport(
    transport_kind: DriveTransportKind,
    request_may_have_reached_server: bool,
    context: RecoveryContext,
) -> (r: ClassifiedRecovery)
    ensures
        r == transport_spec(transport_kind, request_may_have_reached_server, context),
{
    match transport_kind {
        DriveTransportKind::Connect => {
            return ClassifiedRecovery {
                kind: TransferErrorKind::Network,
                decision: RecoveryDecision::WaitForNetwork,
                consumes_retry_budget: false,
            };
        },
        _ => {},
    }
    if operation_modifies_remote(context.operation) && request_may_have_reached_server {
        return verify_remote();
    }
    match transport_kind {
        DriveTransportKind::Network | DriveTransportKind::ResponseBody
        | DriveTransportKind::Connect => ClassifiedRecovery {
            kind: TransferErrorKind::Network,
            decision: RecoveryDecision::WaitForNetwork,
            consumes_retry_budget: false,
        },
        DriveTransportKind::Timeout => ClassifiedRecovery {
            kind: TransferErrorKind::Timeout,
            decision: RecoveryDecision::WaitForNetwork,
            consumes_retry_budget: false,
        },
        DriveTransportKind::Decode => if budget_exhausted(context) {
            permanent(TransferErrorKind::Server)
        } else {
            ClassifiedRecovery {
                kind: TransferErrorKind::Server,
                decision: RecoveryDecision::Backoff { next_retry_at: exponential_backoff_at(context) },
                consumes_retry_budget: true,
            }
        },
        DriveTransportKind::Request | DriveTransportKind::Other => permanent(TransferErrorKind::Unknown),
    }
}

/// Choose the recovery from the HTTP status, the retry budget and whether the
/// operation writes.
fn classify_status(
    status_code: Option<u16>,
    retry_after: Option<RetryAfter>,
    auth_already_replayed: bool,
    request_may_have_reached_server: bool,
    context: RecoveryContext,
) -> (r: ClassifiedRecovery)
    ensures
        r == status_spec(status_code, retry_after, auth_already_replayed,
            request_may_have_reached_server, context),
{
    let status = match status_code {
        Some(s) => s,
        None => return permanent(TransferErrorKind::Unknown),
    };
    if status == 401 {
        if !auth_already_replayed {
            ClassifiedRecovery {
                kind: TransferErrorKind::Auth,
                decision: RecoveryDecision::RefreshAuth,
                consumes_retry_budget: false,
            }
        } else {
            permanent(TransferErrorKind::Auth)
        }
    } else if status == 429 {
        if budget_exhausted(context) {
            permanent(TransferErrorKind::RateLimit)
        } else {
            let next_retry_at = match retry_after {
                Some(r) => r.next_retry_at(context.now_ms),
                None => exponential_backoff_at(context),
            };
            ClassifiedRecovery {
                kind: TransferErrorKind::RateLimit,
                decision: RecoveryDecision::Backoff { next_retry_at },
                consumes_retry_budget: true,
            }
        }
    } else if status == 500 || status == 502 || status == 503 || status == 504 {
        if budget_exhausted(context) {
            if operation_modifies_remote(context.operation) && request_may_have_reached_server {
                ClassifiedRecovery {
                    kind: TransferErrorKind::Server,
                    decision: RecoveryDecision::VerifyRemote,
                    consumes_retry_budget: false,
                }
            } else {
                permanent(TransferErrorKind::Server)
            }
        } else {
            ClassifiedRecovery {
                kind: TransferErrorKind::Server,
                decision: RecoveryDecision::Backoff { next_retry_at: exponential_backoff_at(context) },
                consumes_retry_budget: true,
            }
        }
    } else if status == 400 || status == 409 || status == 422 {
        permanent(TransferErrorKind::Validation)
    } else if status == 403 {
        permanent(TransferErrorKind::Permission)
    } else {
        permanent(TransferErrorKind::Unknown)
    }
}

/// Whether the automatic retry budget is used up.
fn budget_exhausted(context: RecoveryContext) -> (b: bool)
    ensures
        b == exhausted(context),
{
    context.attempt_count >= context.max_attempts
}

/// The backoff never exceeds five minutes, and from nine attempts on it is
/// exactly five minutes.
proof fn lemma_backoff_bounds(attempts: nat)
    ensures
        1 <= backoff_seconds(attempts) <= 300,
        attempts >= 9 ==> backoff_seconds(attempts) == 300,
    decreases attempts,
{
    if attempts > 0 {
        lemma_backoff_bounds((attempts - 1) as nat);
        if attempts >= 9 {
            if attempts == 9 {
                reveal_with_fuel(backoff_seconds, 10);
            }
        }
    }
}

/// Next retry time with jitter, the delay capped at five minutes.
fn exponential_backoff_at(context: RecoveryContext) -> (at: i64)
    ensures
        at == backoff_at(context),
{
    let exponent: u32 = if context.attempt_count < 9 { context.attempt_count } else { 9 };
    let mut seconds: u64 = 1;
    let mut k: u32 = 0;
    while k < exponent
        invariant
            k <= exponent,
            exponent <= 9,
            seconds == backoff_seconds(k as nat),
            seconds <= 300,
        decreases exponent - k,
    {
        seconds = if 2 * seconds > 300 { 300 } else { 2 * seconds };
        k = k + 1;
    }
    proof {
        lemma_backoff_bounds(context.attempt_count as nat);
        if context.attempt_count >= 9 {
            lemma_backoff_bounds(9);
        }
    }
    let millis: u64 = seconds * 1000;
    let delay: u64 = if context.jitter_ms >= 300_000 || millis + context.jitter_ms >= 300_000 {
        300_000
    } else {
        millis + context.jitter_ms
    };
    saturating_add_i64(context.now_ms, delay as i64)
}

/// A failure that is not retried automatically.
fn permanent(kind: TransferErrorKind) -> (r: ClassifiedRecovery)
    ensures
        r == permanent_spec(kind),
{
    ClassifiedRecovery { kind, decision: RecoveryDecision::Fail, consumes_retry_budget: false }
}

/// An ambiguous write whose outcome must be checked against the cloud.
fn verify_remote() -> (r: ClassifiedRecovery)
    ensures
        r == verify_remote_spec(),
{
    ClassifiedRecovery {
        kind: TransferErrorKind::RemoteAmbiguous,
        decision: RecoveryDecision::VerifyRemote,
        consumes_retry_budget: false,
    }
}

/// The classification charges the retry budget exactly when it schedules a
/// backoff, and a used-up budget never schedules one.
pub proof fn retry_budget_pays_for_backoff(error: AppError, context: RecoveryContext)
    ensures
        classify_spec(error, context).consumes_retry_budget
            <==> classify_spec(error, context).decision is Backoff,
        exhausted(context) ==> !(classify_spec(error, context).decision is Backoff),
{
}

/// A backoff that the server did not dictate starts from now and waits at
/// most five minutes.
pub proof fn backoff_waits_at_most_five_minutes(error: AppError, context: RecoveryContext)
    requires
        !(error matches AppError::DriveApi { retry_after: Some(_), .. }),
    ensures
        classify_spec(error, context).decision matches RecoveryDecision::Backoff { next_retry_at }
            ==> context.now_ms <= next_retry_at <= context.now_ms + 300_000,
{
    lemma_backoff_bounds(context.attempt_count as nat);
}

/// The delay of a backoff: the doubling seconds plus the jitter, capped at
/// five minutes.
pub open spec fn backoff_delay(context: RecoveryContext) -> int {
    let delay = backoff_seconds(context.attempt_count as nat) * 1000 + context.jitter_ms;
    if delay > 300_000 { 300_000 } else { delay }
}

/// The next retry of a backoff is now plus a delay of at least one second
/// and at most five minutes (the sum held at the end of `i64`).
pub proof fn backoff_delay_between_one_second_and_five_minutes(context: RecoveryContext)
    ensures
        backoff_at(context) == sat_add_i64(context.now_ms, backoff_delay(context)),
        1000 <= backoff_delay(context) <= 300_000,
{
    lemma_backoff_bounds(context.attempt_count as nat);
}

/// The doubling back-off is two to the number of attempts, in seconds,
/// capped at five minutes.
pub proof fn backoff_seconds_is_capped_power_of_two(attempts: nat)
    ensures
        backoff_seconds(attempts) == if vstd::arithmetic::power2::pow2(attempts) > 300 { 300 } else {
            vstd::arithmetic::power2::pow2(attempts)
        },
    decreases attempts,
{
    if attempts == 0 {
        vstd::arithmetic::power2::lemma2_to64();
    } else {
        backoff_seconds_is_capped_power_of_two((attempts - 1) as nat);
        vstd::arithmetic::power2::lemma_pow2_unfold(attempts);
    }
}

} // verus!
