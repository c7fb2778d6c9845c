use kafu::config::FollowerOnCoordinatorLost;
use kafu::liveness::{
    coordinator_monitors_peers, peer_check_step, post_run_action, startup_probe_step,
    CoordinatorMonitor, FailureCounter, PeerMonitor, MonitorAction, MonitorEvent, PostRunAction, ProbeDecision,
    StartupGate,
};
use kafu::liveness::LeaderHeartbeatState;
use kafu::protocol::{serving_status_from_code, HeartbeatRequest, ServingStatus};

fn hb(started: bool, at: u64) -> MonitorEvent {
    MonitorEvent::Heartbeat { from_coordinator: true, execution_started: started, seen_at_ms: at }
}

fn lose_coordinator(policy: FollowerOnCoordinatorLost) -> Vec<MonitorAction> {
    let mut m = CoordinatorMonitor::new(policy);
    assert_eq!(m.step(hb(true, 0)), MonitorAction::Continue);
    assert_eq!(m.step(MonitorEvent::Tick { now_ms: 1000 }), MonitorAction::Continue);
    (2..=8).map(|t| m.step(MonitorEvent::Tick { now_ms: t * 1000 })).collect()
}

#[test]
fn follower_shuts_down_after_five_missed_over_five_seconds() {
    let actions = lose_coordinator(FollowerOnCoordinatorLost::ShutdownSelf);
    assert_eq!(actions[0], MonitorAction::Missed { failures: 1 });
    assert_eq!(actions[4], MonitorAction::Missed { failures: 5 });
    assert_eq!(actions[5], MonitorAction::ShutdownSelf);
}

#[test]
fn follower_ignores_lost_coordinator() {
    let actions = lose_coordinator(FollowerOnCoordinatorLost::Ignore);
    assert!(!actions.contains(&MonitorAction::ShutdownSelf));
    assert_eq!(actions[5], MonitorAction::CoordinatorLostIgnored);
}

#[test]
fn no_loss_detection_before_execution_started() {
    let mut m = CoordinatorMonitor::new(FollowerOnCoordinatorLost::ShutdownSelf);
    m.step(hb(false, 0));
    for t in 1..100u64 {
        assert_eq!(m.step(MonitorEvent::Tick { now_ms: t * 1000 }), MonitorAction::Continue);
    }
    assert!(!m.execution_observed);
}

#[test]
fn fresh_heartbeat_clears_failures() {
    let mut m = CoordinatorMonitor::new(FollowerOnCoordinatorLost::ShutdownSelf);
    m.step(hb(true, 0));
    m.step(MonitorEvent::Tick { now_ms: 1000 });
    assert_eq!(m.step(MonitorEvent::Tick { now_ms: 2000 }), MonitorAction::Missed { failures: 1 });
    m.step(hb(true, 2500));
    assert_eq!(m.counter.consecutive_failures, 0);
    assert_eq!(m.step(MonitorEvent::Tick { now_ms: 3000 }), MonitorAction::Continue);
    let other = MonitorEvent::Heartbeat { from_coordinator: false, execution_started: true, seen_at_ms: 3500 };
    assert_eq!(m.step(other), MonitorAction::Continue);
    assert_eq!(m.step(MonitorEvent::Tick { now_ms: 4000 }), MonitorAction::Missed { failures: 1 });
}

#[test]
fn startup_gate_waits_for_every_peer() {
    let mut gate = StartupGate::new(2);
    assert!(!gate.may_start());
    gate.record_probe(0, ServingStatus::Serving);
    gate.record_probe(1, ServingStatus::NotServing);
    assert!(!gate.may_start());
    gate.record_probe(1, ServingStatus::Serving);
    assert!(gate.may_start());
    assert!(StartupGate::new(0).may_start());
}

#[test]
fn startup_probe_backoff() {
    assert_eq!(startup_probe_step(Some(ServingStatus::Serving), 40000, 250), ProbeDecision::Ready);
    assert_eq!(startup_probe_step(None, 0, 250), ProbeDecision::Retry { sleep_ms: 250, next_backoff_ms: 500 });
    assert_eq!(startup_probe_step(Some(ServingStatus::NotServing), 100, 1500), ProbeDecision::Retry { sleep_ms: 1500, next_backoff_ms: 2000 });
    assert_eq!(startup_probe_step(None, 30000, 2000), ProbeDecision::Failed);
}

#[test]
fn peer_monitor_counts_failures() {
    let mut c = FailureCounter::new();
    for t in 0..4u64 {
        assert!(!peer_check_step(&mut c, false, t * 2000));
    }
    assert!(peer_check_step(&mut c, false, 8000));
    assert!(!peer_check_step(&mut c, true, 9000));
    assert_eq!(c.consecutive_failures, 0);
    assert!(coordinator_monitors_peers(FollowerOnCoordinatorLost::ShutdownSelf));
    assert!(!coordinator_monitors_peers(FollowerOnCoordinatorLost::Ignore));
}

#[test]
fn health_codes_and_post_run() {
    assert_eq!(serving_status_from_code(1), Some(ServingStatus::Serving));
    assert_eq!(serving_status_from_code(2), Some(ServingStatus::NotServing));
    assert_eq!(serving_status_from_code(0), Some(ServingStatus::Unknown));
    assert_eq!(serving_status_from_code(7), None);
    assert_eq!(post_run_action(true), PostRunAction::SendMigration);
    assert_eq!(post_run_action(false), PostRunAction::ShutdownCluster);
}

#[test]
fn peer_monitor_names_the_lost_peer() {
    let mut m = PeerMonitor::new(2);
    for t in 0..5u64 {
        assert_eq!(m.record_round(&[true, false], t * 1000), None);
    }
    assert_eq!(m.record_round(&[true, false], 5000), Some(1));
    assert_eq!(m.counters[0].consecutive_failures, 0);
    assert_eq!(m.record_round(&[true, true], 6000), None);
}

#[test]
fn health_check_gate_and_loss() {
    let mut m = CoordinatorMonitor::new(FollowerOnCoordinatorLost::ShutdownSelf);
    for t in 0..10u64 {
        let e = MonitorEvent::LeaderExecutionCheck { serving: false, now_ms: t * 1000 };
        assert_eq!(m.step(e), MonitorAction::Continue);
    }
    assert_eq!(m.step(MonitorEvent::LeaderExecutionCheck { serving: true, now_ms: 10000 }), MonitorAction::Continue);
    let mut last = MonitorAction::Continue;
    for t in 11..=16u64 {
        last = m.step(MonitorEvent::LeaderExecutionCheck { serving: false, now_ms: t * 1000 });
    }
    assert_eq!(last, MonitorAction::ShutdownSelf);
}

#[test]
fn heartbeat_state_feeds_the_monitor() {
    let req = HeartbeatRequest { from_node_id: "leader-1".to_string(), execution_started: true };
    let st = LeaderHeartbeatState::from_request(&req, 1234);
    assert_eq!(st.from_node_id, "leader-1");
    assert_eq!(st.last_seen_ms, 1234);
    assert!(st.execution_started);
    assert_eq!(
        st.to_monitor_event("leader-1"),
        MonitorEvent::Heartbeat { from_coordinator: true, execution_started: true, seen_at_ms: 1234 }
    );
    assert!(matches!(st.to_monitor_event("tester"), MonitorEvent::Heartbeat { from_coordinator: false, .. }));
    let d = LeaderHeartbeatState::default();
    assert!(d.from_node_id.is_empty() && !d.execution_started);
}
