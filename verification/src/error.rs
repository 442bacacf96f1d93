//! Errors of the synchroniser and of the drive API it talks to.

use vstd::prelude::*;

verus! {

/// Code of a token failure.
#[derive(Debug, Clone, Copy, PartialEq, Eq, Structural)]
pub enum TokenErrorCode {
    NotLoggedIn,
    RefreshFailed,
}

/// Code of a drive API failure.
#[derive(Debug, Clone, Copy, PartialEq, Eq, Structural)]
pub enum DriveApiErrorCode {
    QuotaExceeded,
    Network,
    NotFound,
    Other,
}

/// Stage of the HTTP exchange at which a transport failure happened.
#[derive(Debug, Clone, Copy, PartialEq, Eq, Structural)]
pub enum DriveTransportKind {
    Connect,
    Request,
    Network,
    Timeout,
    ResponseBody,
    Decode,
    Other,
}

/// A server's `Retry-After` hint.
#[derive(Debug, Clone, Copy, PartialEq, Eq, Structural)]
pub enum RetryAfter {
    /// Retry after this many seconds.
    Seconds(u64),
    /// Retry at this time (milliseconds since the epoch).
    At(i64),
}

/// `a + b`, clamped to the `i64` range.
pub open spec fn sat_add_i64(a: i64, b: int) -> i64 {
    if a + b > i64::MAX {
        i64::MAX
    } else if a + b < i64::MIN {
        i64::MIN
    } else {
        (a + b) as i64
    }
}

/// Milliseconds after `now_ms` at which a hint allows the next attempt.
pub open spec fn retry_after_at(r: RetryAfter, now_ms: i64) -> i64 {
    match r {
        RetryAfter::Seconds(s) => sat_add_i64(now_ms, if s * 1000 > i64::MAX { i64::MAX as int } else { s * 1000 }),
        RetryAfter::At(at) => at,
    }
}

/// `a + b` for a non-negative `b`, clamped at `i64::MAX`.
pub fn saturating_add_i64(a: i64, b: i64) -> (r: i64)
    requires
        b >= 0,
    ensures
        r == sat_add_i64(a, b as int),
{
    if a > i64::MAX - b {
        i64::MAX
    } else {
        a + b
    }
}

impl RetryAfter {
    /// Time at which the hint allows the next attempt.
    pub fn next_retry_at(self, now_ms: i64) -> (r: i64)
        ensures
            r == retry_after_at(self, now_ms),
    {
        match self {
            RetryAfter::Seconds(s) => {
                let delay: i64 = if s > (i64::MAX as u64) / 1000 {
                    i64::MAX
                } else {
                    (s * 1000) as i64
                };
                saturating_add_i64(now_ms, delay)
            },
            RetryAfter::At(at) => at,
        }
    }
}

/// An error of the synchroniser.
#[allow(inconsistent_fields)]
#[derive(Debug)]
pub enum AppError {
    /// The drive's storage quota is exhausted.
    QuotaExceeded { message: String },
    /// The access token is missing or could not be refreshed.
    Token { code: TokenErrorCode, message: String },
    /// Authentication was refused.
    Auth { message: String },
    /// A drive API request failed.
    DriveApi {
        code: DriveApiErrorCode,
        status_code: Option<u16>,
        error_code: Option<String>,
        retry_after: Option<RetryAfter>,
        transport_kind: Option<DriveTransportKind>,
        request_may_have_reached_server: bool,
        auth_already_replayed: bool,
        message: String,
    },
    /// Invalid configuration or request.
    Config { message: String },
    /// Any other failure.
    Generic { message: String },
}

impl AppError {
    /// A drive request that failed in the network before any response, with
    /// an optional detail.
    pub fn drive_network(detail: Option<&str>) -> (e: AppError)
        ensures
            e matches AppError::DriveApi { code, status_code, transport_kind, request_may_have_reached_server, .. }
                && code == DriveApiErrorCode::Network && status_code is None
                && transport_kind == Some(DriveTransportKind::Network) && !request_may_have_reached_server,
    {
        AppError::DriveApi {
            code: DriveApiErrorCode::Network,
            status_code: None,
            error_code: None,
            retry_after: None,
            transport_kind: Some(DriveTransportKind::Network),
            request_may_have_reached_server: false,
            auth_already_replayed: false,
            message: match detail {
                Some(d) => d.to_owned(),
                None => "network error".to_owned(),
            },
        }
    }

    /// A drive request answered with an error status and body.
    pub fn drive_from_status(status: u16, body: &str) -> (e: AppError)
        ensures
            e matches AppError::DriveApi { code, status_code, transport_kind, request_may_have_reached_server, message, .. }
                && status_code == Some(status) && transport_kind is None && request_may_have_reached_server
                && code == if status == 404 { DriveApiErrorCode::NotFound } else { DriveApiErrorCode::Other }
                && message@ == body@,
    {
        AppError::DriveApi {
            code: if status == 404 { DriveApiErrorCode::NotFound } else { DriveApiErrorCode::Other },
            status_code: Some(status),
            error_code: None,
            retry_after: None,
            transport_kind: None,
            request_may_have_reached_server: true,
            auth_already_replayed: false,
            message: body.to_owned(),
        }
    }

    /// A generic error with a message.
    pub fn generic(message: &str) -> (e: AppError)
        ensures
            e matches AppError::Generic { message: m } && m@ == message@,
    {
        AppError::Generic { message: message.to_owned() }
    }

    /// A configuration error with a message.
    pub fn config(message: &str) -> (e: AppError)
        ensures
            e matches AppError::Config { message: m } && m@ == message@,
    {
        AppError::Config { message: message.to_owned() }
    }

    /// The error's message, as characters.
    pub open spec fn message_view(self) -> Seq<char> {
        match self {
            AppError::QuotaExceeded { message } => message@,
            AppError::Token { message, .. } => message@,
            AppError::Auth { message } => message@,
            AppError::DriveApi { message, .. } => message@,
            AppError::Config { message } => message@,
            AppError::Generic { message } => message@,
        }
    }

    /// The error's message.
    pub fn message(&self) -> (m: String)
        ensures
            m@ == self.message_view(),
    {
        match self {
            AppError::QuotaExceeded { message } => message.clone(),
            AppError::Token { message, .. } => message.clone(),
            AppError::Auth { message } => message.clone(),
            AppError::DriveApi { message, .. } => message.clone(),
            AppError::Config { message } => message.clone(),
            AppError::Generic { message } => message.clone(),
        }
    }
}

} // verus!
