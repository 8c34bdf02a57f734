use shutdown_monitor::coordinator::{Coordinator, ManagedProcess, Phase};
use shutdown_monitor::race::{
    race_snapshot, ShutdownOutcome, SignalEvent, SourceError, SourceState, SourceStatus,
};
use shutdown_monitor::signal::{kind_name, monitored_kinds, Platform, SignalKind};

fn pending(kind: SignalKind) -> SourceState {
    SourceState::subscribe(kind)
}

#[test]
fn all_pending_race_stays_unresolved() {
    let sources = vec![
        pending(SignalKind::ChildExited),
        pending(SignalKind::TerminateRequest),
        pending(SignalKind::InterruptRequest),
    ];
    assert_eq!(race_snapshot(&sources), None);
}

#[test]
fn first_fired_source_wins() {
    let mut term = pending(SignalKind::TerminateRequest);
    term.fire(SignalEvent { kind: SignalKind::TerminateRequest });
    let sources = vec![pending(SignalKind::ChildExited), term, pending(SignalKind::InterruptRequest)];
    assert_eq!(
        race_snapshot(&sources),
        Some(ShutdownOutcome::Fired(SignalKind::TerminateRequest))
    );
}

#[test]
fn each_possible_winner_resolves_the_race() {
    // for every ordering of which source becomes ready first, the race
    // resolves to that source's own outcome
    let kinds = [
        SignalKind::ChildExited,
        SignalKind::TerminateRequest,
        SignalKind::InterruptRequest,
    ];
    for winner in 0..kinds.len() {
        let mut sources: Vec<SourceState> = kinds.iter().map(|k| pending(*k)).collect();
        sources[winner].fire(SignalEvent { kind: kinds[winner] });
        assert_eq!(
            race_snapshot(&sources),
            Some(ShutdownOutcome::Fired(kinds[winner]))
        );
    }
}

#[test]
fn failure_short_circuits_like_a_fire() {
    let mut child = pending(SignalKind::ChildExited);
    child.fail(SourceError { code: 13 });
    let sources = vec![child, pending(SignalKind::TerminateRequest)];
    assert_eq!(
        race_snapshot(&sources),
        Some(ShutdownOutcome::RegistrationFailed(SourceError { code: 13 }))
    );
}

#[test]
fn later_completions_do_not_change_a_resolved_race() {
    // once some source is ready, sources after it contribute nothing
    let mut term = pending(SignalKind::TerminateRequest);
    term.fire(SignalEvent { kind: SignalKind::TerminateRequest });
    let mut int = pending(SignalKind::InterruptRequest);
    int.fire(SignalEvent { kind: SignalKind::InterruptRequest });
    let sources = vec![pending(SignalKind::ChildExited), term, int];
    assert_eq!(
        race_snapshot(&sources),
        Some(ShutdownOutcome::Fired(SignalKind::TerminateRequest))
    );
}

#[test]
fn monitored_kinds_per_platform() {
    assert_eq!(
        monitored_kinds(Platform::Unix),
        vec![
            SignalKind::ChildExited,
            SignalKind::TerminateRequest,
            SignalKind::InterruptRequest,
        ]
    );
    assert_eq!(
        monitored_kinds(Platform::Windows),
        vec![SignalKind::ConsoleInterrupt, SignalKind::ConsoleBreak]
    );
    assert_eq!(monitored_kinds(Platform::Unsupported), Vec::new());
}

#[test]
fn kind_names_name_each_condition() {
    assert_eq!(kind_name(SignalKind::ChildExited), "child-exited");
    assert_eq!(kind_name(SignalKind::TerminateRequest), "terminate-request");
    assert_eq!(kind_name(SignalKind::InterruptRequest), "interrupt-request");
    assert_eq!(kind_name(SignalKind::ConsoleInterrupt), "console-interrupt");
    assert_eq!(kind_name(SignalKind::ConsoleBreak), "console-break");
}

#[test]
fn unsupported_platform_never_resolves_within_budget() {
    // the unsupported strategy has no sources: however often the race is
    // polled within a bounded budget, it stays unresolved and the
    // coordinator neither advances nor releases a handle
    let sources: Vec<SourceState> = monitored_kinds(Platform::Unsupported)
        .into_iter()
        .map(pending)
        .collect();
    let c = Coordinator::new(
        vec![ManagedProcess::new(1), ManagedProcess::new(2)],
        Platform::Unsupported,
    );
    for _ in 0..1000 {
        assert_eq!(race_snapshot(&sources), None);
    }
    assert_eq!(c.phase(), Phase::Watching);
    for h in c.handles() {
        assert!(!h.released());
    }
}

#[test]
fn subscribe_fire_and_fail_record_status() {
    let s = SourceState::subscribe(SignalKind::ConsoleBreak);
    assert_eq!(s.kind, SignalKind::ConsoleBreak);
    assert_eq!(s.status, SourceStatus::Pending);

    let mut fired = s;
    fired.fire(SignalEvent { kind: SignalKind::ConsoleBreak });
    assert_eq!(fired.status, SourceStatus::Fired);
    assert_eq!(fired.kind, SignalKind::ConsoleBreak);

    let mut failed = s;
    failed.fail(SourceError { code: 2 });
    assert_eq!(failed.status, SourceStatus::Failed(SourceError { code: 2 }));
}
