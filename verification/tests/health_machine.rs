use failover_proxy::UpstreamTarget;
use failover_proxy::health::{
    check_health, probe_succeeded, state_snapshot, HealthConfig, HealthState, IncidentKind,
};

fn targets() -> UpstreamTarget {
    UpstreamTarget {
        primary: String::from("http://primary.example:9000"),
        backup: String::from("http://backup.example:9001"),
    }
}

fn cfg(fail: u32, recover: u32) -> HealthConfig {
    HealthConfig { fail_threshold: fail, recover_threshold: recover }
}

#[test]
fn fresh_state_trusts_the_primary() {
    let s = HealthState::new();
    assert!(s.primary_healthy);
    assert_eq!(s.fail_count, 0);
    assert_eq!(s.recover_count, 0);
    assert!(s.failover_started_at.is_none());
}

#[test]
fn failover_happens_exactly_at_the_threshold() {
    let t = targets();
    let c = cfg(3, 2);
    let mut s = HealthState::new();

    assert!(check_health(&mut s, &c, &t, false, "probe failed", 10).is_none());
    assert!(s.primary_healthy);
    assert_eq!(s.fail_count, 1);

    assert!(check_health(&mut s, &c, &t, false, "probe failed", 11).is_none());
    assert!(s.primary_healthy);
    assert_eq!(s.fail_count, 2);

    let report = check_health(&mut s, &c, &t, false, "probe failed", 12).expect("third failure must fail over");
    assert!(!s.primary_healthy);
    assert_eq!(s.failover_started_at, Some(12));
    assert_eq!(report.kind, IncidentKind::Failover);
    assert_eq!(report.at_unix, 12);
    assert_eq!(report.fail_count, 3);
    assert_eq!(report.downtime, None);
    assert_eq!(report.primary_url, "http://primary.example:9000");
    assert_eq!(report.backup_url, "http://backup.example:9001");
    assert_eq!(
        report.message,
        "Primary service http://primary.example:9000 failed after 3 consecutive health check \
         failures. Traffic switched to backup: http://backup.example:9001. Error: probe failed"
    );
}

#[test]
fn interleaved_success_restarts_the_failure_run() {
    // With threshold 3, fail,fail,success,fail,fail,fail flips only at the
    // very last probe: five raw failures are consumed, not three.
    let t = targets();
    let c = cfg(3, 2);
    let mut s = HealthState::new();

    let outcomes = [false, false, true, false, false];
    for (i, ok) in outcomes.iter().enumerate() {
        assert!(check_health(&mut s, &c, &t, *ok, "probe failed", i as u64).is_none());
        assert!(s.primary_healthy, "still healthy after probe {}", i);
    }
    assert_eq!(s.fail_count, 2);
    let report = check_health(&mut s, &c, &t, false, "probe failed", 99).expect("sixth probe completes the run");
    assert!(!s.primary_healthy);
    assert_eq!(report.fail_count, 3);
}

#[test]
fn recovery_happens_exactly_at_the_threshold() {
    let t = targets();
    let c = cfg(2, 2);
    let mut s = HealthState::new();
    assert!(check_health(&mut s, &c, &t, false, "probe failed", 5).is_none());
    assert!(check_health(&mut s, &c, &t, false, "probe failed", 7).is_some());
    assert!(!s.primary_healthy);

    assert!(check_health(&mut s, &c, &t, true, "probe failed", 20).is_none());
    assert!(!s.primary_healthy);
    assert_eq!(s.recover_count, 1);

    let report = check_health(&mut s, &c, &t, true, "probe failed", 30).expect("second success must recover");
    assert!(s.primary_healthy);
    assert_eq!(s.fail_count, 0);
    assert_eq!(s.recover_count, 0);
    assert!(s.failover_started_at.is_none());
    assert_eq!(report.kind, IncidentKind::Recovery);
    assert_eq!(report.fail_count, 0);
    assert_eq!(report.downtime, Some(23), "failed over at 7, recovered at 30");
    assert_eq!(
        report.message,
        "Primary service http://primary.example:9000 has recovered and is now healthy. \
         Traffic restored to primary."
    );
}

#[test]
fn successes_while_healthy_keep_fail_count_at_zero() {
    let t = targets();
    let c = cfg(3, 2);
    let mut s = HealthState::new();
    for i in 0..10u64 {
        assert!(check_health(&mut s, &c, &t, true, "probe failed", i).is_none());
        assert!(s.primary_healthy);
        assert_eq!(s.fail_count, 0);
    }
}

#[test]
fn failures_while_on_backup_change_nothing() {
    let t = targets();
    let c = cfg(1, 3);
    let mut s = HealthState::new();
    assert!(check_health(&mut s, &c, &t, false, "probe failed", 4).is_some());
    let after_failover = s;
    for i in 0..10u64 {
        assert!(check_health(&mut s, &c, &t, false, "probe failed", 100 + i).is_none());
        assert_eq!(s, after_failover);
    }
}

#[test]
fn timestamp_present_exactly_while_on_backup() {
    let t = targets();
    let c = cfg(2, 1);
    let mut s = HealthState::new();
    let outcomes = [true, false, false, false, true, true, false];
    for (i, ok) in outcomes.iter().enumerate() {
        check_health(&mut s, &c, &t, *ok, "probe failed", i as u64);
        assert_eq!(s.failover_started_at.is_some(), !s.primary_healthy);
    }
}

#[test]
fn fail_count_is_kept_while_on_backup_and_cleared_on_recovery() {
    let t = targets();
    let c = cfg(2, 1);
    let mut s = HealthState::new();
    check_health(&mut s, &c, &t, false, "probe failed", 1);
    check_health(&mut s, &c, &t, false, "probe failed", 2);
    assert!(!s.primary_healthy);
    assert_eq!(s.fail_count, 2, "the failure run that triggered the failover stays on record");
    check_health(&mut s, &c, &t, false, "probe failed", 3);
    assert_eq!(s.fail_count, 2);
    check_health(&mut s, &c, &t, true, "probe failed", 4);
    assert!(s.primary_healthy);
    assert_eq!(s.fail_count, 0);
}

#[test]
fn a_full_cycle_reports_each_transition_once() {
    let t = targets();
    let c = cfg(2, 2);
    let mut s = HealthState::new();
    let outcomes: [(bool, bool); 10] = [
        (true, false),
        (false, false),
        (false, true),   // failover
        (false, false),
        (true, false),
        (true, true),    // recovery
        (true, false),
        (false, false),
        (false, true),   // failover again
        (false, false),
    ];
    let mut kinds: Vec<IncidentKind> = Vec::new();
    for (i, (ok, expect_report)) in outcomes.iter().enumerate() {
        let report = check_health(&mut s, &c, &t, *ok, "probe failed", i as u64);
        assert_eq!(report.is_some(), *expect_report, "at probe {}", i);
        if let Some(r) = report {
            kinds.push(r.kind);
        }
    }
    assert_eq!(
        kinds,
        vec![IncidentKind::Failover, IncidentKind::Recovery, IncidentKind::Failover]
    );
}

#[test]
fn probe_success_is_any_2xx_status() {
    assert!(probe_succeeded(200));
    assert!(probe_succeeded(204));
    assert!(probe_succeeded(299));
    assert!(!probe_succeeded(199));
    assert!(!probe_succeeded(300));
    assert!(!probe_succeeded(404));
    assert!(!probe_succeeded(500));
}

#[test]
fn snapshot_reflects_the_last_completed_check() {
    let t = targets();
    let c = cfg(2, 2);
    let mut s = HealthState::new();
    check_health(&mut s, &c, &t, false, "probe failed", 1);
    let snap = state_snapshot(&s, &t, 50);
    assert!(!snap.on_backup);
    assert_eq!(snap.fail_count, 1);
    assert_eq!(snap.recover_count, 0);
    assert_eq!(snap.primary, "http://primary.example:9000");
    assert_eq!(snap.backup, "http://backup.example:9001");
    assert_eq!(snap.since_unix, 50);

    check_health(&mut s, &c, &t, false, "probe failed", 2);
    let snap = state_snapshot(&s, &t, 60);
    assert!(snap.on_backup);
    assert_eq!(snap.fail_count, 2);
}
