//! The failover decision engine: a hysteresis state machine over probe
//! outcomes. A configured number of consecutive failed probes flips routing
//! from the primary to the backup; a configured number of successful probes
//! while on the backup flips it back. Each flip yields an incident report.

use vstd::prelude::*;
use crate::UpstreamTarget;
use crate::text::{dec_digits, u64_to_string};

verus! {

/// The hysteresis thresholds, both at least one.
#[derive(Clone, Copy, Debug)]
pub struct HealthConfig {
    /// Consecutive failed probes, while healthy, needed to fail over.
    pub fail_threshold: u32,
    /// Successful probes, while on the backup, needed to switch back.
    pub recover_threshold: u32,
}

impl HealthConfig {
    pub open spec fn wf(self) -> bool {
        &&& self.fail_threshold >= 1
        &&& self.recover_threshold >= 1
    }
}

/// The mutable health record shared between the monitor and the forwarder.
/// The monitor is its only writer; the forwarder only reads
/// `primary_healthy`.
#[derive(Clone, Copy, Debug, PartialEq, Eq)]
pub struct HealthState {
    /// True means route to the primary; false means route to the backup.
    pub primary_healthy: bool,
    /// Consecutive failed probes observed while `primary_healthy` held.
    /// It is left untouched while on the backup and reset to zero when the
    /// primary recovers.
    pub fail_count: u32,
    /// Successful probes observed while on the backup.
    pub recover_count: u32,
    /// The time, in Unix seconds, at which routing moved to the backup;
    /// present exactly while `primary_healthy` is false.
    pub failover_started_at: Option<u64>,
}

impl HealthState {
    /// The record's invariant, established at startup and preserved by every
    /// probe step.
    pub open spec fn wf(self, cfg: HealthConfig) -> bool {
        &&& cfg.wf()
        &&& self.primary_healthy ==> {
            &&& self.recover_count == 0
            &&& self.failover_started_at is None
            &&& self.fail_count < cfg.fail_threshold
        }
        &&& !self.primary_healthy ==> {
            &&& self.failover_started_at is Some
            &&& self.recover_count < cfg.recover_threshold
        }
    }

    /// A fresh process starts out trusting the primary.
    pub fn new() -> (r: HealthState)
        ensures
            r.primary_healthy,
            r.fail_count == 0,
            r.recover_count == 0,
            r.failover_started_at is None,
            forall|cfg: HealthConfig| cfg.wf() ==> r.wf(cfg),
    {
        HealthState {
            primary_healthy: true,
            fail_count: 0,
            recover_count: 0,
            failover_started_at: None,
        }
    }
}

/// Which transition, if any, a probe outcome causes.
#[derive(Clone, Copy, Debug, PartialEq, Eq)]
pub enum IncidentKind {
    /// The primary was declared down and routing moved to the backup.
    Failover,
    /// The primary recovered and routing moved back to it.
    Recovery,
}

/// The state after one probe outcome is applied to `s` at time `now`:
/// the mathematical model of `check_health`.
pub open spec fn probe_step(s: HealthState, cfg: HealthConfig, ok: bool, now: u64) -> HealthState {
    if s.primary_healthy {
        if ok {
            // A single success cancels any partial failure run.
            HealthState { fail_count: 0, ..s }
        } else if s.fail_count + 1 >= cfg.fail_threshold {
            HealthState {
                primary_healthy: false,
                fail_count: (s.fail_count + 1) as u32,
                recover_count: 0,
                failover_started_at: Some(now),
            }
        } else {
            HealthState { fail_count: (s.fail_count + 1) as u32, ..s }
        }
    } else {
        if ok {
            if s.recover_count + 1 >= cfg.recover_threshold {
                HealthState {
                    primary_healthy: true,
                    fail_count: 0,
                    recover_count: 0,
                    failover_started_at: None,
                }
            } else {
                HealthState { recover_count: (s.recover_count + 1) as u32, ..s }
            }
        } else {
            // Already routing to the backup; further failures are not
            // re-reported and reset nothing.
            s
        }
    }
}

/// The transition that one probe outcome causes, if any.
pub open spec fn probe_transition(s: HealthState, cfg: HealthConfig, ok: bool) -> Option<
    IncidentKind,
> {
    if s.primary_healthy && !ok && s.fail_count + 1 >= cfg.fail_threshold {
        Some(IncidentKind::Failover)
    } else if !s.primary_healthy && ok && s.recover_count + 1 >= cfg.recover_threshold {
        Some(IncidentKind::Recovery)
    } else {
        None
    }
}

/// The state after a whole sequence of probe outcomes, first outcome first.
pub open spec fn run_probes(
    s: HealthState,
    cfg: HealthConfig,
    outcomes: Seq<bool>,
    now: u64,
) -> HealthState
    decreases outcomes.len(),
{
    if outcomes.len() == 0 {
        s
    } else {
        run_probes(probe_step(s, cfg, outcomes[0], now), cfg, outcomes.drop_first(), now)
    }
}

/// Every probe step preserves the record's invariant.
pub proof fn lemma_probe_step_wf(s: HealthState, cfg: HealthConfig, ok: bool, now: u64)
    requires
        s.wf(cfg),
    ensures
        probe_step(s, cfg, ok, now).wf(cfg),
{
}

/// The downtime timestamp is present exactly while routing is on the backup.
pub proof fn lemma_timestamp_iff_on_backup(s: HealthState, cfg: HealthConfig)
    requires
        s.wf(cfg),
    ensures
        s.failover_started_at is Some <==> !s.primary_healthy,
{
}

/// While the primary is considered healthy, one step flips routing to the
/// backup exactly when a failed probe completes `fail_threshold` consecutive
/// failures, and a single success resets the failure run to zero.
pub proof fn lemma_failover_exactly_at_threshold(
    s: HealthState,
    cfg: HealthConfig,
    ok: bool,
    now: u64,
)
    requires
        s.wf(cfg),
        s.primary_healthy,
    ensures
        !probe_step(s, cfg, ok, now).primary_healthy <==> (!ok && s.fail_count + 1
            == cfg.fail_threshold),
        ok ==> probe_step(s, cfg, ok, now) == (HealthState { fail_count: 0, ..s }),
{
}

/// While routing is on the backup, one step flips back to the primary exactly
/// when a successful probe completes `recover_threshold` successes, and a
/// failed probe changes nothing at all.
pub proof fn lemma_recovery_exactly_at_threshold(
    s: HealthState,
    cfg: HealthConfig,
    ok: bool,
    now: u64,
)
    requires
        s.wf(cfg),
        !s.primary_healthy,
    ensures
        probe_step(s, cfg, ok, now).primary_healthy <==> (ok && s.recover_count + 1
            == cfg.recover_threshold),
        !ok ==> probe_step(s, cfg, ok, now) == s,
{
}

/// Repeated successes while already healthy with no failures on record
/// change nothing: `fail_count` never moves away from zero.
pub proof fn lemma_successes_while_healthy_are_noops(
    s: HealthState,
    cfg: HealthConfig,
    outcomes: Seq<bool>,
    now: u64,
)
    requires
        s.wf(cfg),
        s.primary_healthy,
        s.fail_count == 0,
        forall|i: int| 0 <= i < outcomes.len() ==> outcomes[i],
    ensures
        run_probes(s, cfg, outcomes, now) == s,
    decreases outcomes.len(),
{
    if outcomes.len() > 0 {
        assert(probe_step(s, cfg, outcomes[0], now) == s);
        lemma_successes_while_healthy_are_noops(s, cfg, outcomes.drop_first(), now);
    }
}

/// Repeated failures while already routing to the backup change nothing:
/// `recover_count` never moves away from its value and nothing is re-reported.
pub proof fn lemma_failures_while_on_backup_are_noops(
    s: HealthState,
    cfg: HealthConfig,
    outcomes: Seq<bool>,
    now: u64,
)
    requires
        s.wf(cfg),
        !s.primary_healthy,
        forall|i: int| 0 <= i < outcomes.len() ==> !outcomes[i],
    ensures
        run_probes(s, cfg, outcomes, now) == s,
    decreases outcomes.len(),
{
    if outcomes.len() > 0 {
        assert(probe_step(s, cfg, outcomes[0], now) == s);
        lemma_failures_while_on_backup_are_noops(s, cfg, outcomes.drop_first(), now);
    }
}

/// A run of consecutive failed probes while healthy: while the run stays
/// short of `fail_threshold`, routing stays on the primary and only the
/// failures are counted; once the run reaches the threshold, routing is on
/// the backup.
pub proof fn lemma_consecutive_failures(
    s: HealthState,
    cfg: HealthConfig,
    outcomes: Seq<bool>,
    now: u64,
)
    requires
        s.wf(cfg),
        s.primary_healthy,
        forall|i: int| 0 <= i < outcomes.len() ==> !outcomes[i],
    ensures
        s.fail_count + outcomes.len() < cfg.fail_threshold ==> run_probes(s, cfg, outcomes, now)
            == (HealthState { fail_count: (s.fail_count + outcomes.len()) as u32, ..s }),
        s.fail_count + outcomes.len() >= cfg.fail_threshold ==> !run_probes(
            s,
            cfg,
            outcomes,
            now,
        ).primary_healthy,
    decreases outcomes.len(),
{
    if outcomes.len() > 0 {
        let s1 = probe_step(s, cfg, outcomes[0], now);
        lemma_probe_step_wf(s, cfg, outcomes[0], now);
        if s.fail_count + 1 >= cfg.fail_threshold {
            lemma_failures_while_on_backup_are_noops(s1, cfg, outcomes.drop_first(), now);
        } else {
            lemma_consecutive_failures(s1, cfg, outcomes.drop_first(), now);
        }
    }
}

/// A run of consecutive successful probes while on the backup: while the run
/// stays short of `recover_threshold`, routing stays on the backup and only
/// the successes are counted; once the run reaches the threshold, the record
/// is back in its pristine healthy shape.
pub proof fn lemma_consecutive_successes(
    s: HealthState,
    cfg: HealthConfig,
    outcomes: Seq<bool>,
    now: u64,
)
    requires
        s.wf(cfg),
        !s.primary_healthy,
        forall|i: int| 0 <= i < outcomes.len() ==> outcomes[i],
    ensures
        s.recover_count + outcomes.len() < cfg.recover_threshold ==> run_probes(
            s,
            cfg,
            outcomes,
            now,
        ) == (HealthState { recover_count: (s.recover_count + outcomes.len()) as u32, ..s }),
        s.recover_count + outcomes.len() >= cfg.recover_threshold ==> run_probes(
            s,
            cfg,
            outcomes,
            now,
        ) == (HealthState {
            primary_healthy: true,
            fail_count: 0,
            recover_count: 0,
            failover_started_at: None,
        }),
    decreases outcomes.len(),
{
    if outcomes.len() > 0 {
        let s1 = probe_step(s, cfg, outcomes[0], now);
        lemma_probe_step_wf(s, cfg, outcomes[0], now);
        if s.recover_count + 1 >= cfg.recover_threshold {
            lemma_successes_while_healthy_are_noops(s1, cfg, outcomes.drop_first(), now);
        } else {
            lemma_consecutive_successes(s1, cfg, outcomes.drop_first(), now);
        }
    }
}

/// How long routing had been on the backup when the primary came back, in
/// seconds; zero if the clock moved backwards meanwhile.
pub open spec fn downtime_secs(started_at: u64, now: u64) -> u64 {
    if now >= started_at {
        (now - started_at) as u64
    } else {
        0
    }
}

/// The message text of a failover report, ending with the probe error that
/// completed the failure run.
pub open spec fn failover_message(
    primary: Seq<char>,
    backup: Seq<char>,
    fails: nat,
    error_text: Seq<char>,
) -> Seq<char> {
    "Primary service "@ + primary + " failed after "@ + dec_digits(fails)
        + " consecutive health check failures. Traffic switched to backup: "@ + backup
        + ". Error: "@ + error_text
}

/// The message text of a recovery report.
pub open spec fn recovery_message(primary: Seq<char>) -> Seq<char> {
    "Primary service "@ + primary
        + " has recovered and is now healthy. Traffic restored to primary."@
}

/// A one-time record of a transition, consumed by the notifier.
#[derive(Clone, Debug)]
pub struct IncidentReport {
    pub kind: IncidentKind,
    /// When the transition happened, in Unix seconds.
    pub at_unix: u64,
    pub primary_url: String,
    pub backup_url: String,
    /// The consecutive failures that triggered a failover; zero for a
    /// recovery.
    pub fail_count: u32,
    /// How long the backup had been active; present only for a recovery.
    pub downtime: Option<u64>,
    /// A human-readable account of the transition.
    pub message: String,
}

impl IncidentReport {
    /// What the report of a given transition out of state `s` must hold.
    pub open spec fn describes(
        self,
        s: HealthState,
        kind: IncidentKind,
        targets: UpstreamTarget,
        error_text: Seq<char>,
        now: u64,
    ) -> bool {
        &&& self.kind == kind
        &&& self.at_unix == now
        &&& self.primary_url@ == targets.primary@
        &&& self.backup_url@ == targets.backup@
        &&& kind is Failover ==> {
            &&& self.fail_count == s.fail_count + 1
            &&& self.downtime is None
            &&& self.message@ == failover_message(
                targets.primary@,
                targets.backup@,
                (s.fail_count + 1) as nat,
                error_text,
            )
        }
        &&& kind is Recovery ==> {
            &&& self.fail_count == 0
            &&& self.downtime == Some(downtime_secs(s.failover_started_at->0, now))
            &&& self.message@ == recovery_message(targets.primary@)
        }
    }
}

fn render_failover_message(targets: &UpstreamTarget, fails: u32, probe_error: &str) -> (r: String)
    ensures
        r@ == failover_message(targets.primary@, targets.backup@, fails as nat, probe_error@),
{
    let mut m = String::from_str("Primary service ");
    m.append(targets.primary.as_str());
    m.append(" failed after ");
    let n = u64_to_string(fails as u64);
    m.append(n.as_str());
    m.append(" consecutive health check failures. Traffic switched to backup: ");
    m.append(targets.backup.as_str());
    m.append(". Error: ");
    m.append(probe_error);
    proof {
        assert(m@ =~= failover_message(
            targets.primary@,
            targets.backup@,
            fails as nat,
            probe_error@,
        ));
    }
    m
}

fn render_recovery_message(targets: &UpstreamTarget) -> (r: String)
    ensures
        r@ == recovery_message(targets.primary@),
{
    let mut m = String::from_str("Primary service ");
    m.append(targets.primary.as_str());
    m.append(" has recovered and is now healthy. Traffic restored to primary.");
    proof {
        assert(m@ =~= recovery_message(targets.primary@));
    }
    m
}

/// Whether a probe response status counts as a healthy primary: any 2xx
/// status, as the monitor's probe treats everything else as a failure.
pub fn probe_succeeded(status: u16) -> (r: bool)
    ensures
        r == (200 <= status && status < 300),
{
    200 <= status && status < 300
}

/// Applies one probe outcome to the health record: the hysteresis step.
/// Returns the incident report when the outcome completes a transition;
/// `probe_error` is the failed probe's own account of itself and is read
/// only when a failover is reported.
pub fn check_health(
    state: &mut HealthState,
    cfg: &HealthConfig,
    targets: &UpstreamTarget,
    probe_ok: bool,
    probe_error: &str,
    now_unix: u64,
) -> (r: Option<IncidentReport>)
    requires
        old(state).wf(*cfg),
    ensures
        final(state).wf(*cfg),
        *final(state) == probe_step(*old(state), *cfg, probe_ok, now_unix),
        (r is Some) == (probe_transition(*old(state), *cfg, probe_ok) is Some),
        r matches Some(rep) ==> rep.describes(
            *old(state),
            probe_transition(*old(state), *cfg, probe_ok)->0,
            *targets,
            probe_error@,
            now_unix,
        ),
{
    if probe_ok {
        if state.primary_healthy {
            // A single success cancels any partial failure run.
            state.fail_count = 0;
            None
        } else {
            let recovered = state.recover_count + 1;
            if recovered >= cfg.recover_threshold {
                let started_at = match state.failover_started_at {
                    Some(t) => t,
                    None => 0,  // unreachable: the invariant pins it while unhealthy
                };
                let downtime = if now_unix >= started_at {
                    now_unix - started_at
                } else {
                    0
                };
                state.primary_healthy = true;
                state.fail_count = 0;
                state.recover_count = 0;
                state.failover_started_at = None;
                Some(
                    IncidentReport {
                        kind: IncidentKind::Recovery,
                        at_unix: now_unix,
                        primary_url: targets.primary.clone(),
                        backup_url: targets.backup.clone(),
                        fail_count: 0,
                        downtime: Some(downtime),
                        message: render_recovery_message(targets),
                    },
                )
            } else {
                state.recover_count = recovered;
                None
            }
        }
    } else {
        if state.primary_healthy {
            let fails = state.fail_count + 1;
            if fails >= cfg.fail_threshold {
                state.primary_healthy = false;
                state.fail_count = fails;
                state.recover_count = 0;
                state.failover_started_at = Some(now_unix);
                Some(
                    IncidentReport {
                        kind: IncidentKind::Failover,
                        at_unix: now_unix,
                        primary_url: targets.primary.clone(),
                        backup_url: targets.backup.clone(),
                        fail_count: fails,
                        downtime: None,
                        message: render_failover_message(targets, fails, probe_error),
                    },
                )
            } else {
                state.fail_count = fails;
                None
            }
        } else {
            // Already routing to the backup; failures while down are not
            // re-reported.
            None
        }
    }
}

/// The read-only snapshot served by the status endpoint.
#[derive(Clone, Debug)]
pub struct StateSnapshot {
    pub on_backup: bool,
    pub primary: String,
    pub backup: String,
    pub fail_count: u32,
    pub recover_count: u32,
    pub since_unix: u64,
}

/// Builds the status snapshot from the health record as the monitor last
/// left it. The monitor's steps are sequential, so every value here comes
/// from one completed step, never from one in progress.
pub fn state_snapshot(state: &HealthState, targets: &UpstreamTarget, now_unix: u64) -> (r:
    StateSnapshot)
    ensures
        r.on_backup == !state.primary_healthy,
        r.primary@ == targets.primary@,
        r.backup@ == targets.backup@,
        r.fail_count == state.fail_count,
        r.recover_count == state.recover_count,
        r.since_unix == now_unix,
{
    StateSnapshot {
        on_backup: !state.primary_healthy,
        primary: targets.primary.clone(),
        backup: targets.backup.clone(),
        fail_count: state.fail_count,
        recover_count: state.recover_count,
        since_unix: now_unix,
    }
}

} // verus!
