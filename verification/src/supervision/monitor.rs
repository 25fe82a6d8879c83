//! What the loader's monitor makes of the health record each time it looks.

use vstd::prelude::*;
use crate::policy::MergePolicy;
use crate::supervision::health::HealthRecord;

verus! {

/// The seconds between two looks at the health record.
pub const HEALTH_CHECK_INTERVAL_SECONDS: u32 = 5;

/// The milliseconds the overload is given to act on a kill request before the loader
/// ends the base itself. A grace window, nothing the loader synchronises on.
pub const KILL_REQUEST_WAIT_MILLISECONDS: u32 = 1000;

/// What one look at the health record finds.
#[derive(Debug, Clone, Copy, PartialEq, Eq, Structural)]
pub enum Verdict {
    /// Nothing calls for an end.
    Healthy,
    /// The last success lies further back than the grace period allows.
    GracePeriodExceeded,
    /// The failures in a row have reached the threshold.
    FailureThresholdReached,
    /// The overload asked for the base to be ended.
    KillRequested,
    /// The overload's heartbeat is gone.
    HeartbeatLost,
}

/// What the monitor does about a verdict.
#[derive(Debug, Clone, Copy, PartialEq, Eq, Structural)]
pub enum Response {
    /// Sleep one interval and look again.
    KeepWatching,
    /// End the base at once and stop watching.
    TerminateBase,
    /// Ask the overload to end the base, wait `KILL_REQUEST_WAIT_MILLISECONDS`, then end
    /// the base whether or not the overload reacted, and stop watching.
    RequestKillThenTerminateBase,
}

/// The seconds since the overload last succeeded.
pub open spec fn silence(record: HealthRecord, now: int) -> int {
    now - record.last_success_timestamp
}

/// The verdict on a record at the instant `now`. The conditions are tried in a fixed
/// order and the first that holds decides: grace period, failure threshold, kill request,
/// heartbeat. A knob set to zero switches its condition off.
pub open spec fn verdict_of(policy: MergePolicy, record: HealthRecord, now: int) -> Verdict {
    if policy.grace_period_seconds > 0 && silence(record, now) > policy.grace_period_seconds {
        Verdict::GracePeriodExceeded
    } else if policy.network_failure_kill_count > 0 && record.consecutive_failures
        >= policy.network_failure_kill_count {
        Verdict::FailureThresholdReached
    } else if record.should_kill_base {
        Verdict::KillRequested
    } else if !record.is_alive {
        Verdict::HeartbeatLost
    } else {
        Verdict::Healthy
    }
}

impl Verdict {
    pub open spec fn response_of(self) -> Response {
        match self {
            Verdict::Healthy => Response::KeepWatching,
            Verdict::FailureThresholdReached => Response::RequestKillThenTerminateBase,
            _ => Response::TerminateBase,
        }
    }

    /// What the monitor does about this verdict.
    pub fn response(&self) -> (response: Response)
        ensures
            response == self.response_of(),
    {
        match self {
            Verdict::Healthy => Response::KeepWatching,
            Verdict::FailureThresholdReached => Response::RequestKillThenTerminateBase,
            _ => Response::TerminateBase,
        }
    }

    /// Whether the verdict ends the base.
    pub fn is_violation(&self) -> (violation: bool)
        ensures
            violation == (*self != Verdict::Healthy),
    {
        !matches!(self, Verdict::Healthy)
    }
}

/// The record as one look of the monitor leaves it: a reached failure threshold raises
/// the kill request, nothing else is written.
pub open spec fn record_after_look(policy: MergePolicy, record: HealthRecord, now: int)
    -> HealthRecord {
    if verdict_of(policy, record, now) == Verdict::FailureThresholdReached {
        HealthRecord { parent_requests_kill: true, ..record }
    } else {
        record
    }
}

/// Judges the health record at the instant `now`.
pub fn evaluate(policy: &MergePolicy, record: &HealthRecord, now: i64) -> (verdict: Verdict)
    ensures
        verdict == verdict_of(*policy, *record, now as int),
{
    let silent_for: i128 = now as i128 - record.last_success_timestamp as i128;
    if policy.grace_period_seconds > 0 && silent_for > policy.grace_period_seconds as i128 {
        Verdict::GracePeriodExceeded
    } else if policy.network_failure_kill_count > 0 && record.consecutive_failures as i64
        >= policy.network_failure_kill_count as i64 {
        Verdict::FailureThresholdReached
    } else if record.should_kill_base {
        Verdict::KillRequested
    } else if !record.is_alive {
        Verdict::HeartbeatLost
    } else {
        Verdict::Healthy
    }
}

/// One look of the monitor: judges the record and, where the failure threshold is
/// reached, raises the kill request in it. The caller then carries out the verdict's
/// response.
pub fn look(policy: &MergePolicy, record: &mut HealthRecord, now: i64) -> (verdict: Verdict)
    ensures
        verdict == verdict_of(*policy, *old(record), now as int),
        *final(record) == record_after_look(*policy, *old(record), now as int),
{
    let verdict = evaluate(policy, record, now);
    if verdict == Verdict::FailureThresholdReached {
        record.parent_requests_kill = true;
    }
    verdict
}

/// The number of the look at which an overload that never reports a success is caught,
/// counting from one.
pub open spec fn catching_look(grace_period_seconds: u32) -> int {
    grace_period_seconds as int / HEALTH_CHECK_INTERVAL_SECONDS as int + 1
}

/// Once the grace period is exceeded the base is ended, whatever else the record shows.
pub proof fn lemma_grace_period_comes_first(policy: MergePolicy, record: HealthRecord, now: int)
    requires
        policy.grace_period_seconds > 0,
        silence(record, now) > policy.grace_period_seconds,
    ensures
        verdict_of(policy, record, now) == Verdict::GracePeriodExceeded,
        verdict_of(policy, record, now).response_of() == Response::TerminateBase,
        record_after_look(policy, record, now) == record,
{
}

/// Once the failures in a row reach the threshold, and the grace period does not end the
/// base first, the monitor raises the kill request and ends the base after the wait,
/// whatever the overload asks for or its heartbeat shows.
pub proof fn lemma_failure_threshold_ends_base(
    policy: MergePolicy,
    record: HealthRecord,
    now: int,
)
    requires
        policy.network_failure_kill_count > 0,
        record.consecutive_failures >= policy.network_failure_kill_count,
        !(policy.grace_period_seconds > 0 && silence(record, now) > policy.grace_period_seconds),
    ensures
        verdict_of(policy, record, now) == Verdict::FailureThresholdReached,
        verdict_of(policy, record, now).response_of() == Response::RequestKillThenTerminateBase,
        record_after_look(policy, record, now).parent_requests_kill,
{
}

/// Every verdict but `Healthy` ends the base, and `Healthy` is given only to a record
/// that trips no condition.
pub proof fn lemma_only_a_clean_record_is_healthy(
    policy: MergePolicy,
    record: HealthRecord,
    now: int,
)
    ensures
        verdict_of(policy, record, now) == Verdict::Healthy <==> {
            &&& !(policy.grace_period_seconds > 0 && silence(record, now)
                > policy.grace_period_seconds)
            &&& !(policy.network_failure_kill_count > 0 && record.consecutive_failures
                >= policy.network_failure_kill_count)
            &&& !record.should_kill_base
            &&& record.is_alive
        },
        verdict_of(policy, record, now).response_of() == Response::KeepWatching <==> verdict_of(
            policy,
            record,
            now,
        ) == Verdict::Healthy,
{
}

/// The monitor writes one field only: whatever it finds, the overload's own fields are
/// left as they were.
pub proof fn lemma_monitor_writes_only_its_field(
    policy: MergePolicy,
    record: HealthRecord,
    now: int,
)
    ensures
        record_after_look(policy, record, now) == (HealthRecord {
            parent_requests_kill: record_after_look(policy, record, now).parent_requests_kill,
            ..record
        }),
        record.parent_requests_kill ==> record_after_look(policy, record, now).parent_requests_kill,
{
}

/// An overload that never reports a success after the record was set up at `start` is
/// caught by the grace period at look number `catching_look`, not before, and that look
/// falls later than the grace period and at most one interval after it.
pub proof fn lemma_silent_overload_is_caught(policy: MergePolicy, record: HealthRecord, start: int)
    requires
        policy.grace_period_seconds > 0,
        record.last_success_timestamp == start,
    ensures
        ({
            let interval = HEALTH_CHECK_INTERVAL_SECONDS as int;
            let caught = catching_look(policy.grace_period_seconds);
            &&& verdict_of(policy, record, start + caught * interval)
                == Verdict::GracePeriodExceeded
            &&& policy.grace_period_seconds < caught * interval <= policy.grace_period_seconds
                + interval
            &&& forall|look: int|
                1 <= look < caught ==> #[trigger] verdict_of(policy, record, start + look * interval)
                    != Verdict::GracePeriodExceeded
        }),
{
    let interval = HEALTH_CHECK_INTERVAL_SECONDS as int;
    let grace = policy.grace_period_seconds as int;
    let caught = catching_look(policy.grace_period_seconds);
    assert(interval == 5);
    assert(caught * interval > grace && caught * interval <= grace + interval);
    assert forall|look: int| 1 <= look < caught implies #[trigger] verdict_of(
        policy,
        record,
        start + look * interval,
    ) != Verdict::GracePeriodExceeded by {
        assert(look * interval <= grace) by (nonlinear_arith)
            requires
                look <= caught - 1,
                caught == grace / 5 + 1,
                interval == 5,
                look >= 1,
                grace >= 0,
        ;
    }
}

} // verus!
