//! Policies of the sync cycle loop: which work a trigger requests, which
//! failures are retried, and how long to wait before the retry.

use vstd::prelude::*;
use crate::coordination::CycleRequest;
use crate::error::AppError;

verus! {

/// Seconds to wait before retrying a cycle after `failures` recoverable
/// failures in a row: doubling from one second, at most 32.
pub open spec fn cycle_retry_secs(failures: u32) -> u64 {
    if failures <= 1 { 1 }
    else if failures == 2 { 2 }
    else if failures == 3 { 4 }
    else if failures == 4 { 8 }
    else if failures == 5 { 16 }
    else { 32 }
}

/// Delay in seconds before retrying a cycle after consecutive recoverable failures.
pub fn recoverable_cycle_retry_delay(consecutive_failures: u32) -> (secs: u64)
    ensures
        secs == cycle_retry_secs(consecutive_failures),
{
    let exponent: u32 = if consecutive_failures == 0 { 0 } else if consecutive_failures - 1 > 5 { 5 } else { consecutive_failures - 1 };
    let mut secs: u64 = 1;
    let mut k: u32 = 0;
    while k < exponent
        invariant
            k <= exponent <= 5,
            secs == if k == 0 { 1u64 } else if k == 1 { 2u64 } else if k == 2 { 4u64 } else if k == 3 { 8u64 } else if k == 4 { 16u64 } else { 32u64 },
        decreases exponent - k,
    {
        secs = secs * 2;
        k = k + 1;
    }
    if secs > 32 { 32 } else { secs }
}

/// Bits of the work that a trigger requests.
pub open spec fn trigger_bits(trigger: Seq<char>) -> u32 {
    if trigger == "manual-refresh"@ { 5 }
    else if trigger == "auto-cloud-refresh"@ { 3 }
    else if trigger == "network-recovery"@ { 11 }
    else if trigger == "startup-resume"@ { 27 }
    else if trigger == "retry-failed"@ { 35 }
    else if trigger == "retry-replan"@ { 67 }
    else if trigger == "backoff-deadline"@ { 11 }
    else { 1 }
}

/// The work that a cycle trigger requests.
pub fn cycle_request_for_trigger(triggered_by: &str) -> (r: CycleRequest)
    ensures
        r.0 == trigger_bits(triggered_by@),
{
    proof {
        lemma_trigger_unions();
    }
    let local = CycleRequest::local_rescan();
    let incremental = CycleRequest::cloud_incremental();
    if crate::paths::str_equal(triggered_by, "manual-refresh") {
        local.bitor(CycleRequest::cloud_full())
    } else if crate::paths::str_equal(triggered_by, "auto-cloud-refresh") {
        local.bitor(incremental)
    } else if crate::paths::str_equal(triggered_by, "network-recovery") {
        local.bitor(incremental).bitor(CycleRequest::online_recovery())
    } else if crate::paths::str_equal(triggered_by, "startup-resume") {
        local.bitor(incremental).bitor(CycleRequest::online_recovery()).bitor(CycleRequest::startup())
    } else if crate::paths::str_equal(triggered_by, "retry-failed") {
        local.bitor(incremental).bitor(CycleRequest::retry())
    } else if crate::paths::str_equal(triggered_by, "retry-replan") {
        local.bitor(incremental).bitor(CycleRequest::replan())
    } else if crate::paths::str_equal(triggered_by, "backoff-deadline") {
        local.bitor(incremental).bitor(CycleRequest::online_recovery())
    } else {
        local
    }
}

/// The unions of request bits that the triggers use.
proof fn lemma_trigger_unions()
    ensures
        (1u32 | 4u32) == 5u32,
        (1u32 | 2u32) == 3u32,
        (3u32 | 8u32) == 11u32,
        (11u32 | 16u32) == 27u32,
        (3u32 | 32u32) == 35u32,
        (3u32 | 64u32) == 67u32,
{
    assert((1u32 | 4u32) == 5u32) by (bit_vector);
    assert((1u32 | 2u32) == 3u32) by (bit_vector);
    assert((3u32 | 8u32) == 11u32) by (bit_vector);
    assert((11u32 | 16u32) == 27u32) by (bit_vector);
    assert((3u32 | 32u32) == 35u32) by (bit_vector);
    assert((3u32 | 64u32) == 67u32) by (bit_vector);
}

/// A failed cycle is retried automatically: a transport failure, a rate
/// limit, or a server error.
pub open spec fn recoverable(error: AppError) -> bool {
    match error {
        AppError::DriveApi { status_code, transport_kind, .. } =>
            transport_kind is Some || (status_code matches Some(s) && (s == 429 || s >= 500)),
        _ => false,
    }
}

/// Whether a failed cycle is retried automatically.
pub fn is_recoverable_cycle_error(error: &AppError) -> (b: bool)
    ensures
        b == recoverable(*error),
{
    match error {
        AppError::DriveApi { status_code, transport_kind, .. } => {
            transport_kind.is_some() || match status_code {
                Some(s) => *s == 429 || *s >= 500,
                None => false,
            }
        },
        _ => false,
    }
}

/// The request holds every bit of `bits`.
pub open spec fn holds(request: u32, bits: u32) -> bool {
    (request & bits) == bits
}

/// What started a coordinated cycle, by priority of the request's bits.
#[derive(Debug, Clone, Copy, PartialEq, Eq, Structural)]
pub enum CycleTrigger {
    StartupResume,
    ManualRefresh,
    RetryFailed,
    RetryReplan,
    NetworkRecovery,
    AutoCloudRefresh,
    LocalWatcher,
}

/// The trigger a request is run as: startup first, then a full cloud
/// refresh, a retry, a replan, an online recovery, an incremental refresh,
/// and otherwise a local rescan.
pub open spec fn trigger_of(request: u32) -> CycleTrigger {
    if holds(request, 16) { CycleTrigger::StartupResume }
    else if holds(request, 4) { CycleTrigger::ManualRefresh }
    else if holds(request, 32) { CycleTrigger::RetryFailed }
    else if holds(request, 64) { CycleTrigger::RetryReplan }
    else if holds(request, 8) { CycleTrigger::NetworkRecovery }
    else if holds(request, 2) { CycleTrigger::AutoCloudRefresh }
    else { CycleTrigger::LocalWatcher }
}

/// The trigger a request is run as.
pub fn cycle_trigger(request: CycleRequest) -> (t: CycleTrigger)
    ensures
        t == trigger_of(request.0),
{
    if request.contains(CycleRequest::startup()) {
        CycleTrigger::StartupResume
    } else if request.contains(CycleRequest::cloud_full()) {
        CycleTrigger::ManualRefresh
    } else if request.contains(CycleRequest::retry()) {
        CycleTrigger::RetryFailed
    } else if request.contains(CycleRequest::replan()) {
        CycleTrigger::RetryReplan
    } else if request.contains(CycleRequest::online_recovery()) {
        CycleTrigger::NetworkRecovery
    } else if request.contains(CycleRequest::cloud_incremental()) {
        CycleTrigger::AutoCloudRefresh
    } else {
        CycleTrigger::LocalWatcher
    }
}

/// The trigger's name, as the cycle observers and the planner see it.
pub open spec fn label_of(t: CycleTrigger) -> Seq<char> {
    match t {
        CycleTrigger::StartupResume => "startup-resume"@,
        CycleTrigger::ManualRefresh => "manual-refresh"@,
        CycleTrigger::RetryFailed => "retry-failed"@,
        CycleTrigger::RetryReplan => "retry-replan"@,
        CycleTrigger::NetworkRecovery => "network-recovery"@,
        CycleTrigger::AutoCloudRefresh => "auto-cloud-refresh"@,
        CycleTrigger::LocalWatcher => "local-watcher"@,
    }
}

/// The phase shown while a cycle runs, unless a phase is shown already;
/// refreshes set their own.
pub open spec fn phase_of(t: CycleTrigger) -> Option<Seq<char>> {
    match t {
        CycleTrigger::LocalWatcher => Some("syncing-local"@),
        CycleTrigger::ManualRefresh => Some("syncing-manual"@),
        CycleTrigger::RetryFailed => Some("syncing-retry"@),
        CycleTrigger::RetryReplan => Some("syncing-retry"@),
        CycleTrigger::StartupResume => Some("syncing-startup"@),
        _ => None,
    }
}

impl CycleTrigger {
    /// The trigger's name.
    pub fn label(self) -> (s: &'static str)
        ensures
            s@ == label_of(self),
    {
        match self {
            CycleTrigger::StartupResume => "startup-resume",
            CycleTrigger::ManualRefresh => "manual-refresh",
            CycleTrigger::RetryFailed => "retry-failed",
            CycleTrigger::RetryReplan => "retry-replan",
            CycleTrigger::NetworkRecovery => "network-recovery",
            CycleTrigger::AutoCloudRefresh => "auto-cloud-refresh",
            CycleTrigger::LocalWatcher => "local-watcher",
        }
    }

    /// The phase shown while the cycle runs.
    pub fn sync_phase(self) -> (s: Option<&'static str>)
        ensures
            match s { Some(x) => Some(x@), None => None } == phase_of(self),
    {
        match self {
            CycleTrigger::LocalWatcher => Some("syncing-local"),
            CycleTrigger::ManualRefresh => Some("syncing-manual"),
            CycleTrigger::RetryFailed => Some("syncing-retry"),
            CycleTrigger::RetryReplan => Some("syncing-retry"),
            CycleTrigger::StartupResume => Some("syncing-startup"),
            _ => None,
        }
    }
}

/// How a cycle brings the cloud tree up to date.
#[derive(Debug, Clone, Copy, PartialEq, Eq, Structural)]
pub enum CloudRefresh {
    /// A full listing.
    Full,
    /// The changes since the saved cursor.
    Incremental,
    /// None.
    Keep,
}

/// The refresh a request asks for: a full one when asked; an incremental one
/// when asked, except at startup when the checkpoint just built is current.
pub open spec fn refresh_for(request: u32, startup_needs_incremental: bool) -> CloudRefresh {
    if holds(request, 4) {
        CloudRefresh::Full
    } else if holds(request, 2) && (!holds(request, 16) || startup_needs_incremental) {
        CloudRefresh::Incremental
    } else {
        CloudRefresh::Keep
    }
}

/// The refresh a request asks for.
pub fn cloud_refresh_for(request: CycleRequest, startup_needs_incremental: bool) -> (r: CloudRefresh)
    ensures
        r == refresh_for(request.0, startup_needs_incremental),
{
    if request.contains(CycleRequest::cloud_full()) {
        CloudRefresh::Full
    } else if request.contains(CycleRequest::cloud_incremental())
        && (!request.contains(CycleRequest::startup()) || startup_needs_incremental) {
        CloudRefresh::Incremental
    } else {
        CloudRefresh::Keep
    }
}

/// Why a cycle stops before planning while the request is kept: at startup
/// this is an error, otherwise the cycle ends quietly.
pub open spec fn held_back(request: u32, startup_message: Seq<char>) -> Result<(), Seq<char>> {
    if holds(request, 16) { Err(startup_message) } else { Ok(()) }
}

pub open spec fn msg_startup_offline() -> Seq<char> {
    "启动云端追平等待网络恢复"@
}

pub open spec fn msg_startup_untrusted() -> Seq<char> {
    "启动云端 checkpoint 尚未追平，等待恢复"@
}

/// The result of a cycle held back while offline before an incremental refresh.
pub fn offline_outcome(request: CycleRequest) -> (r: Result<(), AppError>)
    ensures
        match r {
            Ok(()) => held_back(request.0, msg_startup_offline()) is Ok,
            Err(e) => e is Generic && held_back(request.0, msg_startup_offline())
                == Err::<(), Seq<char>>(e.message_view()),
        },
{
    if request.contains(CycleRequest::startup()) {
        Err(AppError::generic("启动云端追平等待网络恢复"))
    } else {
        Ok(())
    }
}

/// The result of a cycle held back because the cloud tree is not trusted.
pub fn untrusted_outcome(request: CycleRequest) -> (r: Result<(), AppError>)
    ensures
        match r {
            Ok(()) => held_back(request.0, msg_startup_untrusted()) is Ok,
            Err(e) => e is Generic && held_back(request.0, msg_startup_untrusted())
                == Err::<(), Seq<char>>(e.message_view()),
        },
{
    if request.contains(CycleRequest::startup()) {
        Err(AppError::generic("启动云端 checkpoint 尚未追平，等待恢复"))
    } else {
        Ok(())
    }
}

/// A cycle request is admitted once the engine started; the startup cycle
/// itself is always admitted.
pub fn admit_cycle(triggered_by: &str, started: bool) -> (r: Result<(), AppError>)
    ensures
        (triggered_by@ == "startup-resume"@ || started) <==> r is Ok,
        r matches Err(e) ==> e is Generic && e.message_view() == "同步引擎正在启动，请稍后重试"@,
{
    if !crate::paths::str_equal(triggered_by, "startup-resume") && !started {
        return Err(AppError::generic("同步引擎正在启动，请稍后重试"));
    }
    Ok(())
}

/// The answer to a caller that waited for its request: the recorded
/// result, or, when the request is still queued (offline, or a folder sync
/// holds the engine), an error that says so.
pub fn queued_request_result(completed: Option<Result<(), AppError>>) -> (r: Result<(), AppError>)
    ensures
        match completed {
            Some(c) => r == c,
            None => r matches Err(e) && e is Generic && e.message_view() == "同步请求已排队，等待恢复条件"@,
        },
{
    match completed {
        Some(c) => c,
        None => Err(AppError::generic("同步请求已排队，等待恢复条件")),
    }
}

/// Side effects may start only while the engine is not stopping.
pub fn ensure_cycle_active(shutdown: bool) -> (r: Result<(), AppError>)
    ensures
        r is Ok <==> !shutdown,
        r matches Err(e) ==> e is Generic && e.message_view() == "同步引擎已停止，拒绝开始新副作用"@,
{
    if shutdown {
        Err(AppError::generic("同步引擎已停止，拒绝开始新副作用"))
    } else {
        Ok(())
    }
}

} // verus!
