use binary_merger::policy::MergePolicy;
use binary_merger::supervision::health::HealthRecord;
use binary_merger::supervision::monitor::{
    evaluate, look, Response, Verdict, HEALTH_CHECK_INTERVAL_SECONDS,
    KILL_REQUEST_WAIT_MILLISECONDS,
};

const START: i64 = 1_700_000_000;

#[test]
fn a_fresh_record_is_alive_and_clean() {
    let record = HealthRecord::fresh(START);
    assert_eq!(
        record,
        HealthRecord {
            last_success_timestamp: START,
            consecutive_failures: 0,
            is_alive: true,
            should_kill_base: false,
            parent_requests_kill: false,
        }
    );
    let policy = MergePolicy::health_monitored(3, false, 3);
    assert_eq!(evaluate(&policy, &record, START), Verdict::Healthy);
}

#[test]
fn monitor_constants() {
    assert_eq!(HEALTH_CHECK_INTERVAL_SECONDS, 5);
    assert_eq!(KILL_REQUEST_WAIT_MILLISECONDS, 1000);
}

#[test]
fn grace_period_of_three_seconds_is_exceeded_at_the_first_look() {
    let policy = MergePolicy::health_monitored(3, false, 0);
    let mut record = HealthRecord::fresh(START);
    let first_look = START + HEALTH_CHECK_INTERVAL_SECONDS as i64;
    assert!(first_look - START > 3 && first_look - START <= 8);
    let verdict = look(&policy, &mut record, first_look);
    assert_eq!(verdict, Verdict::GracePeriodExceeded);
    assert_eq!(verdict.response(), Response::TerminateBase);
    assert!(verdict.is_violation());
    assert_eq!(record, HealthRecord::fresh(START));
}

#[test]
fn grace_period_is_strict_and_off_at_zero() {
    let record = HealthRecord::fresh(START);
    let policy = MergePolicy::health_monitored(5, false, 0);
    assert_eq!(evaluate(&policy, &record, START + 5), Verdict::Healthy);
    assert_eq!(evaluate(&policy, &record, START + 6), Verdict::GracePeriodExceeded);
    assert_eq!(evaluate(&policy, &record, START - 100), Verdict::Healthy);
    let off = MergePolicy::health_monitored(0, false, 0);
    assert_eq!(evaluate(&off, &record, START + 1_000_000), Verdict::Healthy);
    assert_eq!(evaluate(&off, &record, i64::MAX), Verdict::Healthy);
}

#[test]
fn a_long_grace_period_is_caught_one_interval_late_at_most() {
    let policy = MergePolicy::health_monitored(12, false, 0);
    let record = HealthRecord::fresh(START);
    assert_eq!(evaluate(&policy, &record, START + 5), Verdict::Healthy);
    assert_eq!(evaluate(&policy, &record, START + 10), Verdict::Healthy);
    assert_eq!(evaluate(&policy, &record, START + 15), Verdict::GracePeriodExceeded);
}

#[test]
fn extreme_instants_do_not_overflow() {
    let policy = MergePolicy::health_monitored(1, false, 0);
    let mut record = HealthRecord::fresh(i64::MIN);
    assert_eq!(evaluate(&policy, &record, i64::MAX), Verdict::GracePeriodExceeded);
    record.last_success_timestamp = i64::MAX;
    assert_eq!(evaluate(&policy, &record, i64::MIN), Verdict::Healthy);
    let wide = MergePolicy::health_monitored(u32::MAX, false, 0);
    record.last_success_timestamp = 0;
    assert_eq!(evaluate(&wide, &record, u32::MAX as i64), Verdict::Healthy);
    assert_eq!(evaluate(&wide, &record, u32::MAX as i64 + 1), Verdict::GracePeriodExceeded);
}

#[test]
fn three_failures_in_a_row_reach_a_threshold_of_three() {
    let policy = MergePolicy::health_monitored(0, false, 3);
    let mut record = HealthRecord::fresh(START);
    record.consecutive_failures = 2;
    assert_eq!(look(&policy, &mut record, START + 5), Verdict::Healthy);
    assert!(!record.parent_requests_kill);
    record.consecutive_failures = 3;
    let before = record;
    let verdict = look(&policy, &mut record, START + 10);
    assert_eq!(verdict, Verdict::FailureThresholdReached);
    assert_eq!(verdict.response(), Response::RequestKillThenTerminateBase);
    assert!(record.parent_requests_kill);
    assert_eq!(record, HealthRecord { parent_requests_kill: true, ..before });
}

#[test]
fn failure_threshold_is_off_at_zero_and_blind_to_negative_counts() {
    let mut record = HealthRecord::fresh(START);
    record.consecutive_failures = i32::MAX;
    let off = MergePolicy::health_monitored(0, false, 0);
    assert_eq!(evaluate(&off, &record, START), Verdict::Healthy);
    let policy = MergePolicy::health_monitored(0, false, 1);
    assert_eq!(evaluate(&policy, &record, START), Verdict::FailureThresholdReached);
    record.consecutive_failures = -1;
    assert_eq!(evaluate(&policy, &record, START), Verdict::Healthy);
    let high = MergePolicy::health_monitored(0, false, u32::MAX);
    record.consecutive_failures = i32::MAX;
    assert_eq!(evaluate(&high, &record, START), Verdict::Healthy);
}

#[test]
fn kill_request_and_lost_heartbeat_end_the_base() {
    let policy = MergePolicy::health_monitored(60, false, 3);
    let mut record = HealthRecord::fresh(START);
    record.should_kill_base = true;
    let verdict = look(&policy, &mut record, START + 5);
    assert_eq!(verdict, Verdict::KillRequested);
    assert_eq!(verdict.response(), Response::TerminateBase);
    assert!(!record.parent_requests_kill);

    let mut record = HealthRecord::fresh(START);
    record.is_alive = false;
    let verdict = look(&policy, &mut record, START + 5);
    assert_eq!(verdict, Verdict::HeartbeatLost);
    assert_eq!(verdict.response(), Response::TerminateBase);

    let off = MergePolicy::health_monitored(0, false, 0);
    assert_eq!(evaluate(&off, &record, START), Verdict::HeartbeatLost);
}

#[test]
fn conditions_are_tried_in_order() {
    let policy = MergePolicy::health_monitored(3, false, 3);
    let all = HealthRecord {
        last_success_timestamp: START,
        consecutive_failures: 5,
        is_alive: false,
        should_kill_base: true,
        parent_requests_kill: false,
    };
    let mut record = all;
    assert_eq!(look(&policy, &mut record, START + 5), Verdict::GracePeriodExceeded);
    assert_eq!(record, all);
    assert_eq!(evaluate(&policy, &all, START + 3), Verdict::FailureThresholdReached);
    let no_failures = HealthRecord { consecutive_failures: 0, ..all };
    assert_eq!(evaluate(&policy, &no_failures, START + 3), Verdict::KillRequested);
    let only_heartbeat = HealthRecord { should_kill_base: false, ..no_failures };
    assert_eq!(evaluate(&policy, &only_heartbeat, START + 3), Verdict::HeartbeatLost);
    let healthy = HealthRecord { is_alive: true, ..only_heartbeat };
    assert_eq!(evaluate(&policy, &healthy, START + 3), Verdict::Healthy);
    assert_eq!(Verdict::Healthy.response(), Response::KeepWatching);
    assert!(!Verdict::Healthy.is_violation());
}
