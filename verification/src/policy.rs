//! The supervision policy baked into a merged artifact.

use vstd::prelude::*;

verus! {

/// Which of the two embedded programs a payload is.
#[derive(Debug, Clone, Copy, PartialEq, Eq, Structural)]
pub enum PayloadRole {
    Base,
    Overload,
}

/// How the loader ties the overload's life to the base's.
#[derive(Debug, Clone, Copy, PartialEq, Eq, Structural)]
pub enum MergeMode {
    /// Overload runs beside base and is stopped when base exits.
    StopOnExit,
    /// As `StopOnExit`, with startup verification and health signalling on top.
    HealthMonitored,
}

/// The policy one artifact embodies. A knob set to zero is switched off.
#[derive(Debug, Clone, Copy, PartialEq, Eq, Structural)]
pub struct MergePolicy {
    pub mode: MergeMode,
    pub sync_mode: bool,
    pub grace_period_seconds: u32,
    pub network_failure_kill_count: u32,
}

impl MergePolicy {
    /// The policy of a plain stop-on-exit artifact: nothing to wait for, nothing to watch.
    pub fn stop_on_exit() -> (policy: MergePolicy)
        ensures
            policy == (MergePolicy {
                mode: MergeMode::StopOnExit,
                sync_mode: false,
                grace_period_seconds: 0,
                network_failure_kill_count: 0,
            }),
    {
        MergePolicy {
            mode: MergeMode::StopOnExit,
            sync_mode: false,
            grace_period_seconds: 0,
            network_failure_kill_count: 0,
        }
    }

    /// A health-monitored policy with the given knobs.
    pub fn health_monitored(
        grace_period_seconds: u32,
        sync_mode: bool,
        network_failure_kill_count: u32,
    ) -> (policy: MergePolicy)
        ensures
            policy == (MergePolicy {
                mode: MergeMode::HealthMonitored,
                sync_mode,
                grace_period_seconds,
                network_failure_kill_count,
            }),
    {
        MergePolicy {
            mode: MergeMode::HealthMonitored,
            sync_mode,
            grace_period_seconds,
            network_failure_kill_count,
        }
    }

    /// Whether the loader blocks on the overload before it may start the base.
    pub open spec fn waits_for_overload(self) -> bool {
        self.mode == MergeMode::HealthMonitored && self.sync_mode
    }

    /// Whether a health record is shared with the overload and watched while base runs.
    pub open spec fn watches_health(self) -> bool {
        self.mode == MergeMode::HealthMonitored && !self.sync_mode
    }

    pub fn verifies_overload_first(&self) -> (waits: bool)
        ensures
            waits == self.waits_for_overload(),
    {
        self.mode == MergeMode::HealthMonitored && self.sync_mode
    }

    pub fn monitors_health(&self) -> (watches: bool)
        ensures
            watches == self.watches_health(),
    {
        self.mode == MergeMode::HealthMonitored && !self.sync_mode
    }
}

} // verus!
