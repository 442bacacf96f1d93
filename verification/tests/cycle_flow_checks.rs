use petal_sync::coordination::CycleRequest;
use petal_sync::cycle_flow::{
    begin_coordinated_cycle, begin_sync_cycle, coordinated_cycle_step, sync_cycle_step, CycleCommand, CycleEvent,
    CyclePhase, SyncCycleCommand, SyncCycleEvent, SyncCycleState,
};
use petal_sync::error::AppError;

fn run(request: CycleRequest, answers: Vec<CycleEvent>) -> (Vec<String>, CyclePhase, CycleCommand) {
    let mut phase = begin_coordinated_cycle();
    let mut trace = Vec::new();
    let mut event = CycleEvent::Started;
    let mut answers = answers.into_iter();
    loop {
        let (next, command) = coordinated_cycle_step(request, phase, event);
        phase = next;
        match command {
            CycleCommand::Plan | CycleCommand::RestoreAndFinish(_) | CycleCommand::Finish(_) => return (trace, phase, command),
            other => trace.push(format!("{other:?}")),
        }
        event = answers.next().expect("an answer for every command");
    }
}

#[test]
fn startup_builds_checkpoint_catches_up_and_plans() {
    let request = CycleRequest(16 | 2);
    let (trace, phase, last) = run(
        request,
        vec![
            CycleEvent::StaleReset,
            CycleEvent::CheckpointLoaded { from_cache: true },
            CycleEvent::Online(true),
            CycleEvent::RefreshDone,
            CycleEvent::Trusted(true),
            CycleEvent::PathsRecovered,
            CycleEvent::TombstonesPurged,
            CycleEvent::Recovered { completed: true },
            CycleEvent::Requested,
        ],
    );
    assert_eq!(
        trace,
        vec![
            "ResetStale", "LoadStartupCheckpoint", "CheckOnline", "RefreshIncremental", "CheckTrust", "RecoverPaths",
            "PurgeTombstones", "RecoverInterrupted", "RequestRescan"
        ]
    );
    assert!(matches!(last, CycleCommand::Plan));
    assert!(phase.trusted_seen);
}

#[test]
fn fresh_startup_checkpoint_skips_the_incremental_refresh() {
    let (trace, _, last) = run(
        CycleRequest(16 | 2),
        vec![
            CycleEvent::StaleReset,
            CycleEvent::CheckpointLoaded { from_cache: false },
            CycleEvent::Trusted(true),
            CycleEvent::PathsRecovered,
            CycleEvent::TombstonesPurged,
            CycleEvent::Recovered { completed: false },
        ],
    );
    assert_eq!(
        trace,
        vec!["ResetStale", "LoadStartupCheckpoint", "CheckTrust", "RecoverPaths", "PurgeTombstones", "RecoverInterrupted"]
    );
    assert!(matches!(last, CycleCommand::Plan));
}

#[test]
fn failed_refresh_keeps_the_request() {
    let (_, _, last) = run(CycleRequest(4), vec![CycleEvent::RefreshFailed(AppError::generic("列表失败"))]);
    match last {
        CycleCommand::RestoreAndFinish(Err(e)) => assert_eq!(e.message(), "列表失败"),
        other => panic!("unexpected {other:?}"),
    }
}

#[test]
fn startup_checkpoint_failure_keeps_the_request() {
    let (_, _, last) = run(
        CycleRequest(16 | 2),
        vec![CycleEvent::StaleReset, CycleEvent::StartupCheckpointFailed(AppError::generic("无缓存"))],
    );
    assert!(matches!(last, CycleCommand::RestoreAndFinish(Err(_))));
}

#[test]
fn offline_startup_is_an_error_and_offline_refresh_is_quiet() {
    let (_, _, last) = run(
        CycleRequest(16 | 2),
        vec![CycleEvent::StaleReset, CycleEvent::CheckpointLoaded { from_cache: true }, CycleEvent::Online(false)],
    );
    match last {
        CycleCommand::RestoreAndFinish(Err(e)) => assert_eq!(e.message(), "启动云端追平等待网络恢复"),
        other => panic!("unexpected {other:?}"),
    }
    let (_, _, last) = run(CycleRequest(2), vec![CycleEvent::Online(false)]);
    assert!(matches!(last, CycleCommand::RestoreAndFinish(Ok(()))));
}

#[test]
fn untrusted_tree_refuses_planning() {
    let (_, _, last) = run(CycleRequest(1), vec![CycleEvent::Trusted(false)]);
    assert!(matches!(last, CycleCommand::RestoreAndFinish(Ok(()))));
    let (_, _, last) = run(CycleRequest(16), vec![CycleEvent::StaleReset, CycleEvent::Trusted(false)]);
    match last {
        CycleCommand::RestoreAndFinish(Err(e)) => assert_eq!(e.message(), "启动云端 checkpoint 尚未追平，等待恢复"),
        other => panic!("unexpected {other:?}"),
    }
}

#[test]
fn offline_network_recovery_keeps_the_request_quietly() {
    let (trace, _, last) = run(
        CycleRequest(8),
        vec![CycleEvent::Trusted(true), CycleEvent::PathsRecovered, CycleEvent::TombstonesPurged, CycleEvent::Online(false)],
    );
    assert_eq!(trace, vec!["CheckTrust", "RecoverPaths", "PurgeTombstones", "CheckOnline"]);
    assert!(matches!(last, CycleCommand::RestoreAndFinish(Ok(()))));
}

#[test]
fn retry_runs_after_recovery_and_other_failures_drop_the_request() {
    let (trace, _, last) = run(
        CycleRequest(32),
        vec![CycleEvent::Trusted(true), CycleEvent::PathsRecovered, CycleEvent::TombstonesPurged, CycleEvent::RetryAccepted],
    );
    assert_eq!(trace, vec!["CheckTrust", "RecoverPaths", "PurgeTombstones", "RetryFailed"]);
    assert!(matches!(last, CycleCommand::Plan));
    let (_, _, last) = run(CycleRequest(1), vec![CycleEvent::Failed(AppError::generic("已停止"))]);
    assert!(matches!(last, CycleCommand::Finish(Err(_))));
    let (_, _, last) = run(CycleRequest(1), vec![CycleEvent::RefreshDone]);
    match last {
        CycleCommand::Finish(Err(e)) => assert_eq!(e.message(), "同步周期事件顺序无效"),
        other => panic!("unexpected {other:?}"),
    }
}

fn sync_run(answers: Vec<SyncCycleEvent>) -> (Vec<String>, SyncCycleState, SyncCycleCommand) {
    let mut state = begin_sync_cycle();
    let mut trace = Vec::new();
    let mut event = SyncCycleEvent::Started;
    let mut answers = answers.into_iter();
    loop {
        let (next, command) = sync_cycle_step(state, event);
        state = next;
        match command {
            SyncCycleCommand::FinishIdle | SyncCycleCommand::Finish(_) => return (trace, state, command),
            other => trace.push(format!("{other:?}")),
        }
        event = answers.next().expect("an answer for every command");
    }
}

#[test]
fn trusted_sync_cycle_reconciles_settles_and_rescans_after_moves() {
    let (trace, _, last) = sync_run(vec![
        SyncCycleEvent::Scanned,
        SyncCycleEvent::SnapshotLoaded { trusted: true },
        SyncCycleEvent::Reconciled,
        SyncCycleEvent::Planned { empty: false },
        SyncCycleEvent::Executed { moved: true, content_changed: true },
        SyncCycleEvent::MovesCommitted,
        SyncCycleEvent::Applied,
        SyncCycleEvent::Requested,
        SyncCycleEvent::Published,
    ]);
    assert_eq!(
        trace,
        vec![
            "ScanLocal", "LoadSnapshot", "ReconcileBaselines", "Plan { trusted: true }", "Execute", "CommitMoves",
            "ApplyResults", "RequestRescan", "Publish { content_changed: true }"
        ]
    );
    assert!(matches!(last, SyncCycleCommand::Finish(Ok(()))));
}

#[test]
fn untrusted_sync_cycle_skips_reconciliation_and_empty_plan_goes_idle() {
    let (trace, _, last) = sync_run(vec![
        SyncCycleEvent::Scanned,
        SyncCycleEvent::SnapshotLoaded { trusted: false },
        SyncCycleEvent::Planned { empty: true },
    ]);
    assert_eq!(trace, vec!["ScanLocal", "LoadSnapshot", "Plan { trusted: false }"]);
    assert!(matches!(last, SyncCycleCommand::FinishIdle));
}
