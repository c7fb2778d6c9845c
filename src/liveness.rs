//! Liveness decisions: the coordinator's startup gate, the failure counting
//! of peer and coordinator monitors, and the follower's reaction to a lost
//! coordinator. Time is handed in as milliseconds of a monotonic clock.
use vstd::prelude::*;

use crate::config::{other_node_ids, peer_ids, string_views, node_entries, FollowerOnCoordinatorLost, KafuConfig};
use crate::protocol::{HeartbeatRequest, ServingStatus, ShutdownRequest};
use crate::stack::str_equal;

verus! {

/// Consecutive failed checks after which a node counts as lost.
pub const FAILURES_TO_SHUTDOWN: u32 = 5;

/// Shortest span of failures, in milliseconds, after which a node counts as lost.
pub const FAILURE_MIN_DURATION_MS: u64 = 5000;

/// Budget of the startup gate, in milliseconds.
pub const STARTUP_TOTAL_TIMEOUT_MS: u64 = 30000;

/// First pause of the startup gate's polling, in milliseconds.
pub const STARTUP_INITIAL_BACKOFF_MS: u64 = 250;

/// Longest pause of the startup gate's polling, in milliseconds.
pub const STARTUP_MAX_BACKOFF_MS: u64 = 2000;

/// Next pause of a doubling backoff capped at `cap`.
pub open spec fn doubled_capped(b: u64, cap: u64) -> u64 {
    if 2 * b > cap {
        cap
    } else {
        (2 * b) as u64
    }
}

fn double_capped(b: u64, cap: u64) -> (r: u64)
    ensures
        r == doubled_capped(b, cap),
{
    if b > cap / 2 {
        assert(2 * b > cap);
        cap
    } else {
        b * 2
    }
}

/// What the startup gate does after one health probe of a peer.
#[derive(Debug, Clone, Copy, PartialEq, Eq, Structural)]
pub enum ProbeDecision {
    /// The peer serves.
    Ready,
    /// The budget is spent: startup fails.
    Failed,
    /// Probe again after `sleep_ms`; the pause after that is `next_backoff_ms`.
    Retry { sleep_ms: u64, next_backoff_ms: u64 },
}

/// Decides after a probe of a peer that answered `status` (`None` when the
/// probe failed), `elapsed_ms` after polling began, with pause `backoff_ms`.
pub fn startup_probe_step(status: Option<ServingStatus>, elapsed_ms: u64, backoff_ms: u64) -> (r: ProbeDecision)
    ensures
        r == (if status == Some(ServingStatus::Serving) {
            ProbeDecision::Ready
        } else if elapsed_ms >= STARTUP_TOTAL_TIMEOUT_MS {
            ProbeDecision::Failed
        } else {
            ProbeDecision::Retry {
                sleep_ms: backoff_ms,
                next_backoff_ms: doubled_capped(backoff_ms, STARTUP_MAX_BACKOFF_MS),
            }
        }),
{
    match status {
        Some(ServingStatus::Serving) => ProbeDecision::Ready,
        _ => {
            if elapsed_ms >= STARTUP_TOTAL_TIMEOUT_MS {
                ProbeDecision::Failed
            } else {
                ProbeDecision::Retry {
                    sleep_ms: backoff_ms,
                    next_backoff_ms: double_capped(backoff_ms, STARTUP_MAX_BACKOFF_MS),
                }
            }
        },
    }
}

/// The coordinator's startup gate: which peers have reported `Serving`.
pub struct StartupGate {
    pub serving: Vec<bool>,
}

/// The startup record after a sequence of `(peer, status)` answers, starting from `n` peers that have not answered.
pub open spec fn gate_after(n: nat, reports: Seq<(usize, ServingStatus)>) -> Seq<bool>
    decreases reports.len(),
{
    if reports.len() == 0 {
        Seq::new(n, |i: int| false)
    } else {
        let prev = gate_after(n, reports.drop_last());
        let (i, st) = reports.last();
        if (i as int) < prev.len() && st == ServingStatus::Serving {
            prev.update(i as int, true)
        } else {
            prev
        }
    }
}

impl StartupGate {
    /// A gate for `n` peers, none of which has reported yet.
    pub fn new(n: usize) -> (r: Self)
        ensures
            r.serving@ == gate_after(n as nat, Seq::empty()),
    {
        let mut serving: Vec<bool> = Vec::new();
        let mut k: usize = 0;
        while k < n
            invariant
                k <= n,
                serving@ == Seq::new(k as nat, |i: int| false),
            decreases n - k,
        {
            serving.push(false);
            assert(serving@ =~= Seq::new((k + 1) as nat, |i: int| false));
            k = k + 1;
        }
        assert(serving@ =~= gate_after(n as nat, Seq::empty()));
        StartupGate { serving }
    }

    /// Records what peer `peer` answered.
    pub fn record_probe(&mut self, peer: usize, status: ServingStatus)
        ensures
            final(self).serving@ == (if (peer as int) < old(self).serving@.len() && status
                == ServingStatus::Serving {
                old(self).serving@.update(peer as int, true)
            } else {
                old(self).serving@
            }),
    {
        if peer < self.serving.len() && status == ServingStatus::Serving {
            self.serving.set(peer, true);
        }
    }

    /// Whether every peer has reported `Serving`, so the guest may start.
    pub fn may_start(&self) -> (r: bool)
        ensures
            r == forall|i: int| 0 <= i < self.serving@.len() ==> self.serving@[i],
    {
        let mut k: usize = 0;
        while k < self.serving.len()
            invariant
                k <= self.serving@.len(),
                forall|i: int| 0 <= i < k ==> self.serving@[i],
            decreases self.serving@.len() - k,
        {
            if !self.serving[k] {
                return false;
            }
            k = k + 1;
        }
        true
    }
}

proof fn lemma_gate_marks_only_serving(n: nat, reports: Seq<(usize, ServingStatus)>, i: int)
    requires
        0 <= i < n,
        gate_after(n, reports)[i],
    ensures
        exists|k: int| 0 <= k < reports.len() && #[trigger] reports[k] == (i as usize, ServingStatus::Serving),
    decreases reports.len(),
{
    assert(gate_after(n, reports).len() == n) by {
        lemma_gate_len(n, reports);
    }
    if reports.len() > 0 {
        let prev = gate_after(n, reports.drop_last());
        lemma_gate_len(n, reports.drop_last());
        let (j, st) = reports.last();
        if j as int == i && st == ServingStatus::Serving {
            assert(reports[reports.len() - 1] == (i as usize, ServingStatus::Serving));
        } else {
            assert(prev[i]);
            lemma_gate_marks_only_serving(n, reports.drop_last(), i);
            let k = choose|k: int| 0 <= k < reports.drop_last().len() && #[trigger] reports.drop_last()[k] == (i as usize, ServingStatus::Serving);
            assert(reports[k] == reports.drop_last()[k]);
        }
    }
}

proof fn lemma_gate_len(n: nat, reports: Seq<(usize, ServingStatus)>)
    ensures
        gate_after(n, reports).len() == n,
    decreases reports.len(),
{
    if reports.len() > 0 {
        lemma_gate_len(n, reports.drop_last());
    }
}

/// Peer `i` reported `Serving` somewhere in the run.
pub open spec fn reported_serving(reports: Seq<(usize, ServingStatus)>, i: int) -> bool {
    exists|k: int| 0 <= k < reports.len() && #[trigger] reports[k] == (i as usize, ServingStatus::Serving)
}

/// Startup safety: if the startup record lets the guest start after a sequence of probe
/// reports, every peer reported `Serving` in that run.
pub proof fn lemma_start_only_when_all_serving(n: nat, reports: Seq<(usize, ServingStatus)>)
    requires
        forall|i: int| 0 <= i < gate_after(n, reports).len() ==> gate_after(n, reports)[i],
    ensures
        forall|i: int| 0 <= i < n ==> #[trigger] reported_serving(reports, i),
{
    lemma_gate_len(n, reports);
    assert forall|i: int| 0 <= i < n implies #[trigger] reported_serving(reports, i) by {
        lemma_gate_marks_only_serving(n, reports, i);
    }
}

/// Failure count of a monitored node.
#[derive(Debug, Clone, Copy, PartialEq, Eq, Structural)]
pub struct FailureCounter {
    pub consecutive_failures: u32,
    /// When the current run of failures began.
    pub first_failure_at_ms: Option<u64>,
}

pub open spec fn counter_after_failure(c: FailureCounter, now_ms: u64) -> FailureCounter {
    FailureCounter {
        consecutive_failures: if c.consecutive_failures == u32::MAX {
            u32::MAX
        } else {
            (c.consecutive_failures + 1) as u32
        },
        first_failure_at_ms: match c.first_failure_at_ms {
            Some(t) => Some(t),
            None => Some(now_ms),
        },
    }
}

/// A node is lost after at least five consecutive failures spanning at least five seconds.
pub open spec fn counter_lost(c: FailureCounter, now_ms: u64) -> bool {
    c.consecutive_failures >= FAILURES_TO_SHUTDOWN && match c.first_failure_at_ms {
        Some(t) => now_ms >= t && now_ms - t >= FAILURE_MIN_DURATION_MS,
        None => false,
    }
}

impl FailureCounter {
    pub fn new() -> (r: Self)
        ensures
            r.consecutive_failures == 0,
            r.first_failure_at_ms is None,
    {
        FailureCounter { consecutive_failures: 0, first_failure_at_ms: None }
    }

    /// Counts a failed check at `now_ms`.
    pub fn record_failure(&mut self, now_ms: u64)
        ensures
            *final(self) == counter_after_failure(*old(self), now_ms),
    {
        if self.consecutive_failures < u32::MAX {
            self.consecutive_failures = self.consecutive_failures + 1;
        }
        if self.first_failure_at_ms.is_none() {
            self.first_failure_at_ms = Some(now_ms);
        }
    }

    /// Clears the count after a successful check.
    pub fn reset(&mut self)
        ensures
            final(self).consecutive_failures == 0,
            final(self).first_failure_at_ms is None,
    {
        self.consecutive_failures = 0;
        self.first_failure_at_ms = None;
    }

    /// Whether the node counts as lost at `now_ms`.
    pub fn is_lost(&self, now_ms: u64) -> (r: bool)
        ensures
            r == counter_lost(*self, now_ms),
    {
        if self.consecutive_failures < FAILURES_TO_SHUTDOWN {
            return false;
        }
        match self.first_failure_at_ms {
            Some(t) => now_ms >= t && now_ms - t >= FAILURE_MIN_DURATION_MS,
            None => false,
        }
    }
}

/// What the follower's monitor of push heartbeats observes.
#[derive(Debug, Clone, Copy, PartialEq, Eq, Structural)]
pub enum MonitorEvent {
    /// A heartbeat arrived, at `seen_at_ms`; `from_coordinator` when it came from the coordinator.
    Heartbeat { from_coordinator: bool, execution_started: bool, seen_at_ms: u64 },
    /// The monitor's interval elapsed, at `now_ms`.
    Tick { now_ms: u64 },
    /// A health check of the coordinator's `leader_execution` service
    /// answered, at `now_ms`; `serving` when it reported `Serving`.
    LeaderExecutionCheck { serving: bool, now_ms: u64 },
}

/// What the follower does after an event.
#[derive(Debug, Clone, Copy, PartialEq, Eq, Structural)]
pub enum MonitorAction {
    /// Nothing to do.
    Continue,
    /// A heartbeat is missing; `failures` in a row so far.
    Missed { failures: u32 },
    /// The coordinator is lost and the policy ignores it: log only.
    CoordinatorLostIgnored,
    /// The coordinator is lost: shut this node down.
    ShutdownSelf,
}

/// State of the follower's monitor of push heartbeats.
#[derive(Debug, Clone, Copy, PartialEq, Eq, Structural)]
pub struct CoordinatorMonitor {
    pub policy: FollowerOnCoordinatorLost,
    /// Whether the coordinator has been seen executing the guest.
    pub execution_observed: bool,
    pub counter: FailureCounter,
    /// When the latest heartbeat of the coordinator arrived.
    pub last_seen_ms: Option<u64>,
    /// The arrival time already looked at by the previous tick.
    pub last_seen_checked_ms: Option<u64>,
}

/// The monitor's next state and action after an event.
pub open spec fn monitor_step(m: CoordinatorMonitor, e: MonitorEvent) -> (CoordinatorMonitor, MonitorAction) {
    let fresh = FailureCounter { consecutive_failures: 0, first_failure_at_ms: None };
    match e {
        MonitorEvent::Heartbeat { from_coordinator, execution_started, seen_at_ms } => {
            if !from_coordinator {
                (m, MonitorAction::Continue)
            } else if execution_started && !m.execution_observed {
                (
                    CoordinatorMonitor {
                        execution_observed: true,
                        counter: fresh,
                        last_seen_ms: Some(seen_at_ms),
                        last_seen_checked_ms: None,
                        ..m
                    },
                    MonitorAction::Continue,
                )
            } else if m.execution_observed {
                (
                    CoordinatorMonitor { counter: fresh, last_seen_ms: Some(seen_at_ms), ..m },
                    MonitorAction::Continue,
                )
            } else {
                (CoordinatorMonitor { last_seen_ms: Some(seen_at_ms), ..m }, MonitorAction::Continue)
            }
        },
        MonitorEvent::Tick { now_ms } => {
            if !m.execution_observed {
                (m, MonitorAction::Continue)
            } else if m.last_seen_ms is None || m.last_seen_ms == m.last_seen_checked_ms {
                let c = counter_after_failure(m.counter, now_ms);
                let next = CoordinatorMonitor { counter: c, ..m };
                if counter_lost(c, now_ms) {
                    (
                        next,
                        match m.policy {
                            FollowerOnCoordinatorLost::ShutdownSelf => MonitorAction::ShutdownSelf,
                            FollowerOnCoordinatorLost::Ignore => MonitorAction::CoordinatorLostIgnored,
                        },
                    )
                } else {
                    (next, MonitorAction::Missed { failures: c.consecutive_failures })
                }
            } else {
                (
                    CoordinatorMonitor { counter: fresh, last_seen_checked_ms: m.last_seen_ms, ..m },
                    MonitorAction::Continue,
                )
            }
        },
        MonitorEvent::LeaderExecutionCheck { serving, now_ms } => {
            if !m.execution_observed {
                if serving {
                    (
                        CoordinatorMonitor { execution_observed: true, counter: fresh, ..m },
                        MonitorAction::Continue,
                    )
                } else {
                    (m, MonitorAction::Continue)
                }
            } else if serving {
                (CoordinatorMonitor { counter: fresh, ..m }, MonitorAction::Continue)
            } else {
                let c = counter_after_failure(m.counter, now_ms);
                let next = CoordinatorMonitor { counter: c, ..m };
                if counter_lost(c, now_ms) {
                    (
                        next,
                        match m.policy {
                            FollowerOnCoordinatorLost::ShutdownSelf => MonitorAction::ShutdownSelf,
                            FollowerOnCoordinatorLost::Ignore => MonitorAction::CoordinatorLostIgnored,
                        },
                    )
                } else {
                    (next, MonitorAction::Missed { failures: c.consecutive_failures })
                }
            }
        },
    }
}

impl CoordinatorMonitor {
    /// A monitor that has seen nothing yet.
    pub fn new(policy: FollowerOnCoordinatorLost) -> (r: Self)
        ensures
            r.policy == policy,
            !r.execution_observed,
            r.counter.consecutive_failures == 0 && r.counter.first_failure_at_ms is None,
            r.last_seen_ms is None,
            r.last_seen_checked_ms is None,
    {
        CoordinatorMonitor {
            policy,
            execution_observed: false,
            counter: FailureCounter::new(),
            last_seen_ms: None,
            last_seen_checked_ms: None,
        }
    }

    /// Handles one event. Loss detection only begins once the coordinator
    /// has been seen executing the guest (a heartbeat saying so, or its
    /// `leader_execution` service reporting `Serving`); from then on, each
    /// tick without a newer heartbeat, and each failed check, counts as a
    /// failure, and a newer heartbeat or a serving check clears the count.
    pub fn step(&mut self, e: MonitorEvent) -> (r: MonitorAction)
        ensures
            (*final(self), r) == monitor_step(*old(self), e),
    {
        match e {
            MonitorEvent::Heartbeat { from_coordinator, execution_started, seen_at_ms } => {
                if !from_coordinator {
                    return MonitorAction::Continue;
                }
                self.last_seen_ms = Some(seen_at_ms);
                if execution_started && !self.execution_observed {
                    self.execution_observed = true;
                    self.counter.reset();
                    self.last_seen_checked_ms = None;
                } else if self.execution_observed {
                    self.counter.reset();
                }
                MonitorAction::Continue
            },
            MonitorEvent::Tick { now_ms } => {
                if !self.execution_observed {
                    return MonitorAction::Continue;
                }
                if self.last_seen_ms.is_none() || self.last_seen_ms == self.last_seen_checked_ms {
                    self.counter.record_failure(now_ms);
                    if self.counter.is_lost(now_ms) {
                        match self.policy {
                            FollowerOnCoordinatorLost::ShutdownSelf => MonitorAction::ShutdownSelf,
                            FollowerOnCoordinatorLost::Ignore => MonitorAction::CoordinatorLostIgnored,
                        }
                    } else {
                        MonitorAction::Missed { failures: self.counter.consecutive_failures }
                    }
                } else {
                    self.counter.reset();
                    self.last_seen_checked_ms = self.last_seen_ms;
                    MonitorAction::Continue
                }
            },
            MonitorEvent::LeaderExecutionCheck { serving, now_ms } => {
                if !self.execution_observed {
                    if serving {
                        self.execution_observed = true;
                        self.counter.reset();
                    }
                    return MonitorAction::Continue;
                }
                if serving {
                    self.counter.reset();
                    return MonitorAction::Continue;
                }
                self.counter.record_failure(now_ms);
                if self.counter.is_lost(now_ms) {
                    match self.policy {
                        FollowerOnCoordinatorLost::ShutdownSelf => MonitorAction::ShutdownSelf,
                        FollowerOnCoordinatorLost::Ignore => MonitorAction::CoordinatorLostIgnored,
                    }
                } else {
                    MonitorAction::Missed { failures: self.counter.consecutive_failures }
                }
            },
        }
    }
}

/// The monitor's state after the first `k` events.
pub open spec fn monitor_state_at(m0: CoordinatorMonitor, evs: Seq<MonitorEvent>, k: int) -> CoordinatorMonitor
    decreases k,
{
    if k <= 0 {
        m0
    } else {
        monitor_step(monitor_state_at(m0, evs, k - 1), evs[k - 1]).0
    }
}

/// Event `e` shows the coordinator executing the guest: a heartbeat of the
/// coordinator saying so, or `leader_execution` reported `Serving`.
pub open spec fn observes_execution(e: MonitorEvent) -> bool {
    (e matches MonitorEvent::Heartbeat { from_coordinator: true, execution_started: true, .. })
        || (e matches MonitorEvent::LeaderExecutionCheck { serving: true, .. })
}

proof fn lemma_observed_needs_execution_heartbeat(m0: CoordinatorMonitor, evs: Seq<MonitorEvent>, k: int)
    requires
        !m0.execution_observed,
        0 <= k <= evs.len(),
        monitor_state_at(m0, evs, k).execution_observed,
    ensures
        exists|j: int| 0 <= j < k && observes_execution(#[trigger] evs[j]),
    decreases k,
{
    if k > 0 {
        let prev = monitor_state_at(m0, evs, k - 1);
        if prev.execution_observed {
            lemma_observed_needs_execution_heartbeat(m0, evs, k - 1);
        } else {
            assert(observes_execution(evs[k - 1]));
        }
    }
}

/// Loss gating: a follower whose monitor starts out having observed nothing
/// never shuts itself down for a lost coordinator before it has seen the
/// coordinator executing the guest (`leader_execution` serving, or a
/// heartbeat saying so).
pub proof fn lemma_no_shutdown_before_execution_observed(
    m0: CoordinatorMonitor,
    evs: Seq<MonitorEvent>,
    k: int,
)
    requires
        !m0.execution_observed,
        0 <= k < evs.len(),
        monitor_step(monitor_state_at(m0, evs, k), evs[k]).1 == MonitorAction::ShutdownSelf,
    ensures
        exists|j: int| 0 <= j < k && observes_execution(#[trigger] evs[j]),
{
    lemma_observed_needs_execution_heartbeat(m0, evs, k);
}

/// The coordinator's record of one peer's health checks.
pub fn peer_check_step(counter: &mut FailureCounter, serving: bool, now_ms: u64) -> (lost: bool)
    ensures
        serving ==> final(counter).consecutive_failures == 0 && final(counter).first_failure_at_ms is None,
        !serving ==> *final(counter) == counter_after_failure(*old(counter), now_ms),
        lost == (!serving && counter_lost(*final(counter), now_ms)),
{
    if serving {
        counter.reset();
        false
    } else {
        counter.record_failure(now_ms);
        counter.is_lost(now_ms)
    }
}

/// Whether the coordinator pushes heartbeats and watches its peers: only when
/// followers shut down on a lost coordinator, so the policy is symmetric.
pub fn coordinator_monitors_peers(policy: FollowerOnCoordinatorLost) -> (r: bool)
    ensures
        r == (policy == FollowerOnCoordinatorLost::ShutdownSelf),
{
    policy == FollowerOnCoordinatorLost::ShutdownSelf
}

/// What a node does when its guest returns from `_start` or a resume.
#[derive(Debug, Clone, Copy, PartialEq, Eq, Structural)]
pub enum PostRunAction {
    /// Send the pending migration.
    SendMigration,
    /// The program finished: shut the cluster down.
    ShutdownCluster,
}

pub fn post_run_action(has_pending_migration: bool) -> (r: PostRunAction)
    ensures
        r == (if has_pending_migration {
            PostRunAction::SendMigration
        } else {
            PostRunAction::ShutdownCluster
        }),
{
    if has_pending_migration {
        PostRunAction::SendMigration
    } else {
        PostRunAction::ShutdownCluster
    }
}

} // verus!

verus! {

/// The coordinator's failure counts of its peers, one per peer in order.
pub struct PeerMonitor {
    pub counters: Vec<FailureCounter>,
}

/// A counter after one health check: cleared when the peer served, else one more failure.
pub open spec fn counter_after_check(c: FailureCounter, serving: bool, now_ms: u64) -> FailureCounter {
    if serving {
        FailureCounter { consecutive_failures: 0, first_failure_at_ms: None }
    } else {
        counter_after_failure(c, now_ms)
    }
}

/// First lost peer at or after index `i`, if any.
pub open spec fn first_lost(cs: Seq<FailureCounter>, now_ms: u64, i: int) -> Option<usize>
    decreases cs.len() - i,
{
    if i < 0 || i >= cs.len() {
        None
    } else if counter_lost(cs[i], now_ms) {
        Some(i as usize)
    } else {
        first_lost(cs, now_ms, i + 1)
    }
}

impl PeerMonitor {
    /// A monitor of `n` peers with no failures.
    pub fn new(n: usize) -> (r: Self)
        ensures
            r.counters@.len() == n,
            forall|i: int| 0 <= i < n ==> (#[trigger] r.counters@[i]).consecutive_failures == 0
                && r.counters@[i].first_failure_at_ms is None,
    {
        let mut counters: Vec<FailureCounter> = Vec::new();
        let mut k: usize = 0;
        while k < n
            invariant
                k <= n,
                counters@.len() == k,
                forall|i: int| 0 <= i < k ==> (#[trigger] counters@[i]).consecutive_failures == 0
                    && counters@[i].first_failure_at_ms is None,
            decreases n - k,
        {
            counters.push(FailureCounter::new());
            k = k + 1;
        }
        PeerMonitor { counters }
    }

    /// Records one round of health checks, `serving[i]` for peer `i`, at
    /// `now_ms`, and returns the first peer that is now lost: the cluster is
    /// then shut down citing it.
    pub fn record_round(&mut self, serving: &[bool], now_ms: u64) -> (r: Option<usize>)
        requires
            serving@.len() == old(self).counters@.len(),
        ensures
            final(self).counters@.len() == old(self).counters@.len(),
            forall|i: int|
                0 <= i < serving@.len() ==> #[trigger] final(self).counters@[i] == counter_after_check(
                    old(self).counters@[i],
                    serving@[i],
                    now_ms,
                ),
            r == first_lost(final(self).counters@, now_ms, 0),
    {
        let ghost c0 = self.counters@;
        let mut k: usize = 0;
        while k < serving.len()
            invariant
                serving@.len() == c0.len(),
                self.counters@.len() == c0.len(),
                k <= c0.len(),
                forall|i: int|
                    0 <= i < k ==> #[trigger] self.counters@[i] == counter_after_check(
                        c0[i],
                        serving@[i],
                        now_ms,
                    ),
                forall|i: int| k <= i < c0.len() ==> #[trigger] self.counters@[i] == c0[i],
            decreases c0.len() - k,
        {
            let mut c = self.counters[k];
            peer_check_step(&mut c, serving[k], now_ms);
            self.counters.set(k, c);
            k = k + 1;
        }
        let mut j: usize = 0;
        while j < self.counters.len()
            invariant
                j <= self.counters@.len(),
                serving@.len() == c0.len(),
                self.counters@.len() == c0.len(),
                c0 == old(self).counters@,
                forall|i: int|
                    0 <= i < c0.len() ==> #[trigger] self.counters@[i] == counter_after_check(
                        c0[i],
                        serving@[i],
                        now_ms,
                    ),
                first_lost(self.counters@, now_ms, 0) == first_lost(self.counters@, now_ms, j as int),
            decreases self.counters@.len() - j,
        {
            if self.counters[j].is_lost(now_ms) {
                return Some(j);
            }
            j = j + 1;
        }
        None
    }
}

} // verus!

verus! {

/// The latest push heartbeat that a node has received.
#[derive(Debug, Clone)]
pub struct LeaderHeartbeatState {
    pub from_node_id: String,
    /// Arrival time, in milliseconds of the node's monotonic clock.
    pub last_seen_ms: u64,
    pub execution_started: bool,
}

impl Default for LeaderHeartbeatState {
    fn default() -> (r: Self)
        ensures
            r.from_node_id@.len() == 0,
            r.last_seen_ms == 0,
            !r.execution_started,
    {
        LeaderHeartbeatState { from_node_id: String::new(), last_seen_ms: 0, execution_started: false }
    }
}

impl LeaderHeartbeatState {
    /// The state that a heartbeat request arriving at `now_ms` leaves.
    pub fn from_request(req: &HeartbeatRequest, now_ms: u64) -> (r: Self)
        ensures
            r.from_node_id@ == req.from_node_id@,
            r.last_seen_ms == now_ms,
            r.execution_started == req.execution_started,
    {
        LeaderHeartbeatState {
            from_node_id: req.from_node_id.clone(),
            last_seen_ms: now_ms,
            execution_started: req.execution_started,
        }
    }

    /// The event that this state means to the monitor of coordinator `coordinator_id`.
    pub fn to_monitor_event(&self, coordinator_id: &str) -> (r: MonitorEvent)
        ensures
            r == (MonitorEvent::Heartbeat {
                from_coordinator: self.from_node_id@ == coordinator_id@,
                execution_started: self.execution_started,
                seen_at_ms: self.last_seen_ms,
            }),
    {
        MonitorEvent::Heartbeat {
            from_coordinator: str_equal(self.from_node_id.as_str(), coordinator_id),
            execution_started: self.execution_started,
            seen_at_ms: self.last_seen_ms,
        }
    }
}

} // verus!

verus! {

/// The shutdown notices that node `node_id` sends when it shuts the cluster
/// down: one per other node, in declaration order, each naming `node_id` and
/// `reason`.
pub fn cluster_shutdown_requests(config: &KafuConfig, node_id: &str, reason: &str) -> (r: Vec<(String, ShutdownRequest)>)
    ensures
        r@.len() == peer_ids(node_entries(config.nodes), node_id@, node_entries(config.nodes).len() as int).len(),
        forall|k: int|
            0 <= k < r@.len() ==> {
                &&& (#[trigger] r@[k]).0@ == peer_ids(
                    node_entries(config.nodes),
                    node_id@,
                    node_entries(config.nodes).len() as int,
                )[k]
                &&& r@[k].1.from_node_id@ == node_id@
                &&& r@[k].1.reason@ == reason@
            },
{
    let peers = other_node_ids(config, node_id);
    let ghost pv = string_views(peers@);
    let mut out: Vec<(String, ShutdownRequest)> = Vec::new();
    let mut k: usize = 0;
    while k < peers.len()
        invariant
            k <= peers@.len(),
            pv == string_views(peers@),
            out@.len() == k,
            forall|j: int|
                0 <= j < k ==> {
                    &&& (#[trigger] out@[j]).0@ == pv[j]
                    &&& out@[j].1.from_node_id@ == node_id@
                    &&& out@[j].1.reason@ == reason@
                },
        decreases peers@.len() - k,
    {
        out.push(
            (
                peers[k].clone(),
                ShutdownRequest { from_node_id: node_id.to_owned(), reason: reason.to_owned() },
            ),
        );
        k = k + 1;
    }
    out
}

} // verus!
