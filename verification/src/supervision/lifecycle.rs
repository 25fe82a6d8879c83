//! The life of one run of a merged artifact, from its start to its exit code.
//!
//! A `Supervisor` holds what the loader knows; `step` takes in what happened and answers
//! with what the loader knows next and what it has to do. Whoever drives it starts the
//! processes, waits for them and runs the monitor, and reports each event as it comes.

use vstd::prelude::*;
use vstd::string::StringExecFns;
use crate::policy::MergePolicy;
use crate::text::{render_signed, signed_decimal};
use crate::supervision::monitor::Verdict;

verus! {

/// The exit code of a run whose overload could not be started or failed its
/// verification.
pub const FAILURE_EXIT_CODE: i32 = 1;

/// The exit code that the base is ended with when the loader ends it by force. It is
/// not zero, so a run whose base was ended by force does not pass for a clean one.
pub const FORCED_EXIT_CODE: i32 = 1;

/// The exit code of a run whose base could not be started.
pub const BASE_NOT_STARTED_EXIT_CODE: i32 = -1;

/// How the loader stands to a started overload before the base runs.
#[derive(Debug, Clone, Copy, PartialEq, Eq, Structural)]
pub enum OverloadStage {
    /// The loader blocks until the overload has exited.
    AwaitingVerification,
    /// The overload runs beside the loader, which goes on at once.
    Background,
}

/// Where a run stands.
#[derive(Debug, Clone, Copy, PartialEq, Eq, Structural)]
pub enum Phase {
    Idle,
    OverloadStarting,
    OverloadRunning(OverloadStage),
    BaseRunning,
    Terminating,
    Done,
}

/// What the driver reports to the supervisor.
#[derive(Debug, Clone, Copy, PartialEq, Eq, Structural)]
pub enum Event {
    /// The loader has come up. Where the policy asks for health monitoring,
    /// `health_record_ready` says whether the shared record could be set up.
    Started { health_record_ready: bool },
    OverloadLaunched,
    OverloadLaunchFailed,
    OverloadExited { code: i32 },
    BaseLaunched,
    BaseLaunchFailed,
    /// The monitor found the record in violation of the policy.
    Violation { verdict: Verdict },
    BaseExited { code: i32 },
    /// The overload is stopped, the monitor joined, the extracted files deleted.
    CleanedUp,
}

/// What the supervisor has the driver do.
#[derive(Debug, Clone, Copy, PartialEq, Eq, Structural)]
pub enum Action {
    /// The event does not belong to the phase: nothing changes, nothing is to be done.
    Ignore,
    /// Extract and start the overload, handing it the record's name if one is shared.
    LaunchOverload { share_health_record: bool },
    /// Block until the overload exits.
    AwaitOverload,
    /// Extract and start the base.
    LaunchBase,
    /// Block until the base exits, with the monitor running beside if `monitor` is set.
    WatchBase { monitor: bool },
    /// End the base by force with exit code `code`, after asking the overload to do so
    /// and waiting out the grace window if `request_overload_kill` is set.
    TerminateBase { request_overload_kill: bool, code: i32 },
    /// Stop the overload if `terminate_overload` is set, wait for the monitor to end if
    /// `join_monitor` is set, then release the record and delete the extracted files.
    CleanUp { terminate_overload: bool, join_monitor: bool },
    /// Leave with this exit code.
    Exit { code: i32 },
}

/// A failure of the run itself, for the driver to log.
#[derive(Debug, Clone, Copy, PartialEq, Eq, Structural)]
pub enum SupervisionFailure {
    /// The shared record could not be set up: the run goes on without monitoring.
    HealthRecordUnavailable,
    OverloadNotStarted,
    /// The overload exited with this code where zero was required.
    VerificationFailed { code: i32 },
    BaseNotStarted,
}

/// The tag that opens every line the loader logs, so that its lines can be searched for.
pub const LOG_TAG: &'static str = "[KillCode]";

impl SupervisionFailure {
    /// The line to log for a failure: the tag, then what happened.
    pub open spec fn message_text(self) -> Seq<char> {
        match self {
            SupervisionFailure::HealthRecordUnavailable => LOG_TAG@
                + " Warning: Failed to create shared memory"@,
            SupervisionFailure::OverloadNotStarted => LOG_TAG@
                + " Failed to start overload binary"@,
            SupervisionFailure::VerificationFailed { code } => LOG_TAG@
                + " Overload verification failed (exit code: "@ + signed_decimal(code as int)
                + ")"@,
            SupervisionFailure::BaseNotStarted => LOG_TAG@ + " Failed to start base binary"@,
        }
    }

    /// Whether the run goes on after the failure. Only a missing health record lets it.
    pub fn is_warning(&self) -> (warning: bool)
        ensures
            warning == (*self == SupervisionFailure::HealthRecordUnavailable),
    {
        matches!(self, SupervisionFailure::HealthRecordUnavailable)
    }

    /// The line to log for this failure.
    pub fn message(&self) -> (text: String)
        ensures
            text@ == self.message_text(),
    {
        let mut text = String::from_str(LOG_TAG);
        match self {
            SupervisionFailure::HealthRecordUnavailable => {
                text.append(" Warning: Failed to create shared memory");
            },
            SupervisionFailure::OverloadNotStarted => {
                text.append(" Failed to start overload binary");
            },
            SupervisionFailure::VerificationFailed { code } => {
                text.append(" Overload verification failed (exit code: ");
                let number = render_signed(*code);
                text.append(number.as_str());
                text.append(")");
            },
            SupervisionFailure::BaseNotStarted => {
                text.append(" Failed to start base binary");
            },
        }
        text
    }
}

/// Every line logged for a failure opens with the tag.
pub proof fn lemma_failure_messages_carry_the_tag(failure: SupervisionFailure)
    ensures
        LOG_TAG@.is_prefix_of(failure.message_text()),
{
    let text = failure.message_text();
    assert(text.subrange(0, LOG_TAG@.len() as int) =~= LOG_TAG@);
}

/// What the loader knows about its run.
#[derive(Debug, Clone, Copy, PartialEq, Eq, Structural)]
pub struct Supervisor {
    pub policy: MergePolicy,
    pub phase: Phase,
    /// A health record is shared with the overload.
    pub health_record_ready: bool,
    pub overload_started: bool,
    /// The overload was started and has neither been seen to exit nor been stopped.
    pub overload_alive: bool,
    /// The overload ran to its end and exited with zero.
    pub overload_verified: bool,
    pub base_started: bool,
    pub base_exited: bool,
    pub monitor_started: bool,
    pub exit_code: i32,
}

/// The answer to an event.
#[derive(Debug, Clone, Copy, PartialEq, Eq, Structural)]
pub struct Transition {
    pub next: Supervisor,
    pub action: Action,
    pub failure: Option<SupervisionFailure>,
}

impl Supervisor {
    /// The supervisor of a run that has not begun.
    pub open spec fn initial(policy: MergePolicy) -> Supervisor {
        Supervisor {
            policy,
            phase: Phase::Idle,
            health_record_ready: false,
            overload_started: false,
            overload_alive: false,
            overload_verified: false,
            base_started: false,
            base_exited: false,
            monitor_started: false,
            exit_code: 0,
        }
    }

    /// Whether the base is yet to be started: the loader stands where the base's launch
    /// was ordered and has not heard of it.
    pub open spec fn awaits_base_launch(self) -> bool {
        !self.base_started && (self.phase == Phase::OverloadRunning(OverloadStage::Background)
            || self.phase == Phase::BaseRunning)
    }

    /// Whether the base was started and has not been seen to exit.
    pub open spec fn base_is_running(self) -> bool {
        self.base_started && !self.base_exited && (self.phase == Phase::BaseRunning || self.phase
            == Phase::Terminating)
    }

    /// The answer that changes nothing.
    pub open spec fn ignoring(self) -> Transition {
        Transition { next: self, action: Action::Ignore, failure: None }
    }

    /// The run gives up before the base has run: it goes to `Terminating` with a
    /// failure code and cleans up what is there.
    pub open spec fn abandoning(self, code: i32, failure: SupervisionFailure) -> Transition {
        Transition {
            next: Supervisor {
                phase: Phase::Terminating,
                overload_alive: false,
                exit_code: code,
                ..self
            },
            action: Action::CleanUp { terminate_overload: self.overload_alive, join_monitor: false },
            failure: Some(failure),
        }
    }

    /// The loader has come up: the overload is started first. Monitoring that the policy
    /// asks for is given up, with a failure to log, where no record could be set up.
    pub open spec fn on_started(self, health_record_ready: bool) -> Transition {
        if self.phase == Phase::Idle {
            let shared = self.policy.watches_health() && health_record_ready;
            Transition {
                next: Supervisor {
                    phase: Phase::OverloadStarting,
                    health_record_ready: shared,
                    ..self
                },
                action: Action::LaunchOverload { share_health_record: shared },
                failure: if self.policy.watches_health() && !health_record_ready {
                    Some(SupervisionFailure::HealthRecordUnavailable)
                } else {
                    None
                },
            }
        } else {
            self.ignoring()
        }
    }

    /// The overload could not be started: the run is given up.
    pub open spec fn on_overload_launch_failed(self) -> Transition {
        if self.phase == Phase::OverloadStarting {
            self.abandoning(FAILURE_EXIT_CODE, SupervisionFailure::OverloadNotStarted)
        } else {
            self.ignoring()
        }
    }

    /// The overload runs: a policy that verifies first waits for its exit, any other
    /// starts the base at once.
    pub open spec fn on_overload_launched(self) -> Transition {
        if self.phase != Phase::OverloadStarting {
            self.ignoring()
        } else if self.policy.waits_for_overload() {
            Transition {
                next: Supervisor {
                    phase: Phase::OverloadRunning(OverloadStage::AwaitingVerification),
                    overload_started: true,
                    overload_alive: true,
                    ..self
                },
                action: Action::AwaitOverload,
                failure: None,
            }
        } else {
            Transition {
                next: Supervisor {
                    phase: Phase::OverloadRunning(OverloadStage::Background),
                    overload_started: true,
                    overload_alive: true,
                    ..self
                },
                action: Action::LaunchBase,
                failure: None,
            }
        }
    }

    /// The overload that the loader waited for has exited: zero lets the base start,
    /// anything else gives the run up with the base never started.
    pub open spec fn on_overload_exited(self, code: i32) -> Transition {
        if self.phase != Phase::OverloadRunning(OverloadStage::AwaitingVerification) {
            self.ignoring()
        } else if code == 0 {
            Transition {
                next: Supervisor {
                    phase: Phase::BaseRunning,
                    overload_alive: false,
                    overload_verified: true,
                    ..self
                },
                action: Action::LaunchBase,
                failure: None,
            }
        } else {
            (Supervisor { overload_alive: false, ..self }).abandoning(
                FAILURE_EXIT_CODE,
                SupervisionFailure::VerificationFailed { code },
            )
        }
    }

    /// The base runs: the loader waits for its exit, with the monitor beside it where
    /// the policy watches health and a record is shared.
    pub open spec fn on_base_launched(self) -> Transition {
        if self.awaits_base_launch() {
            let monitor = self.policy.watches_health() && self.health_record_ready;
            Transition {
                next: Supervisor {
                    phase: Phase::BaseRunning,
                    base_started: true,
                    monitor_started: monitor,
                    ..self
                },
                action: Action::WatchBase { monitor },
                failure: None,
            }
        } else {
            self.ignoring()
        }
    }

    /// The base could not be started: the run is given up and the overload stopped.
    pub open spec fn on_base_launch_failed(self) -> Transition {
        if self.awaits_base_launch() {
            self.abandoning(BASE_NOT_STARTED_EXIT_CODE, SupervisionFailure::BaseNotStarted)
        } else {
            self.ignoring()
        }
    }

    /// The monitor found a violation while the base runs: the base is ended by force.
    pub open spec fn on_violation(self, verdict: Verdict) -> Transition {
        if self.phase == Phase::BaseRunning && self.base_is_running() && self.monitor_started
            && verdict != Verdict::Healthy {
            Transition {
                next: Supervisor { phase: Phase::Terminating, ..self },
                action: Action::TerminateBase {
                    request_overload_kill: verdict == Verdict::FailureThresholdReached,
                    code: FORCED_EXIT_CODE,
                },
                failure: None,
            }
        } else {
            self.ignoring()
        }
    }

    /// The base has exited, by itself or by force: its code becomes the run's, the
    /// overload is stopped if it still lives, the monitor is joined if it was started.
    pub open spec fn on_base_exited(self, code: i32) -> Transition {
        if self.base_is_running() {
            Transition {
                next: Supervisor {
                    phase: Phase::Terminating,
                    base_exited: true,
                    overload_alive: false,
                    exit_code: code,
                    ..self
                },
                action: Action::CleanUp {
                    terminate_overload: self.overload_alive,
                    join_monitor: self.monitor_started,
                },
                failure: None,
            }
        } else {
            self.ignoring()
        }
    }

    /// Cleaning up is over: the run leaves with its exit code.
    pub open spec fn on_cleaned_up(self) -> Transition {
        if self.phase == Phase::Terminating && !self.base_is_running() {
            Transition {
                next: Supervisor { phase: Phase::Done, ..self },
                action: Action::Exit { code: self.exit_code },
                failure: None,
            }
        } else {
            self.ignoring()
        }
    }

    /// The supervisor's answer to `event`. An event that does not belong to the phase
    /// is ignored, so that reporting one twice does no harm.
    pub open spec fn after(self, event: Event) -> Transition {
        match event {
            Event::Started { health_record_ready } => self.on_started(health_record_ready),
            Event::OverloadLaunchFailed => self.on_overload_launch_failed(),
            Event::OverloadLaunched => self.on_overload_launched(),
            Event::OverloadExited { code } => self.on_overload_exited(code),
            Event::BaseLaunched => self.on_base_launched(),
            Event::BaseLaunchFailed => self.on_base_launch_failed(),
            Event::Violation { verdict } => self.on_violation(verdict),
            Event::BaseExited { code } => self.on_base_exited(code),
            Event::CleanedUp => self.on_cleaned_up(),
        }
    }

    /// What holds of every supervisor that `step` can lead to from `initial`.
    pub open spec fn well_formed(self) -> bool {
        &&& self.health_record_ready ==> self.policy.watches_health()
        &&& self.monitor_started ==> self.base_started && self.health_record_ready
        &&& self.overload_alive ==> self.overload_started
        &&& self.overload_verified ==> self.overload_started && !self.overload_alive
        &&& self.base_started ==> self.overload_started
        &&& self.base_started && self.policy.waits_for_overload() ==> self.overload_verified
        &&& self.base_exited ==> self.base_started
        &&& self.base_is_running() && !self.policy.waits_for_overload() ==> self.overload_alive
        &&& match self.phase {
            Phase::Idle => !self.overload_started,
            Phase::OverloadStarting => !self.overload_started,
            Phase::OverloadRunning(OverloadStage::AwaitingVerification) => {
                &&& self.overload_alive
                &&& !self.base_started
                &&& self.policy.waits_for_overload()
            },
            Phase::OverloadRunning(OverloadStage::Background) => {
                &&& self.overload_alive
                &&& !self.base_started
                &&& !self.policy.waits_for_overload()
            },
            Phase::BaseRunning => {
                &&& self.overload_started
                &&& !self.base_exited
                &&& self.policy.waits_for_overload() ==> self.overload_verified
                &&& !self.policy.waits_for_overload() ==> self.base_started
            },
            Phase::Terminating => self.base_is_running() || !self.overload_alive,
            Phase::Done => !self.overload_alive && !self.base_is_running(),
        }
    }

    /// The supervisor of a run that has not begun.
    pub fn new(policy: MergePolicy) -> (supervisor: Supervisor)
        ensures
            supervisor == Supervisor::initial(policy),
    {
        Supervisor {
            policy,
            phase: Phase::Idle,
            health_record_ready: false,
            overload_started: false,
            overload_alive: false,
            overload_verified: false,
            base_started: false,
            base_exited: false,
            monitor_started: false,
            exit_code: 0,
        }
    }

    fn ignore(self) -> (answer: Transition)
        ensures
            answer == self.ignoring(),
    {
        Transition { next: self, action: Action::Ignore, failure: None }
    }

    fn abandon(self, code: i32, failure: SupervisionFailure) -> (answer: Transition)
        ensures
            answer == self.abandoning(code, failure),
    {
        Transition {
            next: Supervisor {
                phase: Phase::Terminating,
                overload_alive: false,
                exit_code: code,
                ..self
            },
            action: Action::CleanUp { terminate_overload: self.overload_alive, join_monitor: false },
            failure: Some(failure),
        }
    }

    fn waiting_for_base_launch(&self) -> (waiting: bool)
        ensures
            waiting == self.awaits_base_launch(),
    {
        !self.base_started && (self.phase == Phase::OverloadRunning(OverloadStage::Background)
            || self.phase == Phase::BaseRunning)
    }

    fn base_running(&self) -> (running: bool)
        ensures
            running == self.base_is_running(),
    {
        self.base_started && !self.base_exited && (self.phase == Phase::BaseRunning || self.phase
            == Phase::Terminating)
    }

    fn started(self, health_record_ready: bool) -> (answer: Transition)
        ensures
            answer == self.on_started(health_record_ready),
    {
        if self.phase != Phase::Idle {
            return self.ignore();
        }
        let wanted = self.policy.monitors_health();
        let shared = wanted && health_record_ready;
        Transition {
            next: Supervisor { phase: Phase::OverloadStarting, health_record_ready: shared, ..self },
            action: Action::LaunchOverload { share_health_record: shared },
            failure: if wanted && !health_record_ready {
                Some(SupervisionFailure::HealthRecordUnavailable)
            } else {
                None
            },
        }
    }

    fn overload_launched(self) -> (answer: Transition)
        ensures
            answer == self.on_overload_launched(),
    {
        if self.phase != Phase::OverloadStarting {
            return self.ignore();
        }
        if self.policy.verifies_overload_first() {
            Transition {
                next: Supervisor {
                    phase: Phase::OverloadRunning(OverloadStage::AwaitingVerification),
                    overload_started: true,
                    overload_alive: true,
                    ..self
                },
                action: Action::AwaitOverload,
                failure: None,
            }
        } else {
            Transition {
                next: Supervisor {
                    phase: Phase::OverloadRunning(OverloadStage::Background),
                    overload_started: true,
                    overload_alive: true,
                    ..self
                },
                action: Action::LaunchBase,
                failure: None,
            }
        }
    }

    fn overload_exited(self, code: i32) -> (answer: Transition)
        ensures
            answer == self.on_overload_exited(code),
    {
        if self.phase != Phase::OverloadRunning(OverloadStage::AwaitingVerification) {
            return self.ignore();
        }
        if code == 0 {
            Transition {
                next: Supervisor {
                    phase: Phase::BaseRunning,
                    overload_alive: false,
                    overload_verified: true,
                    ..self
                },
                action: Action::LaunchBase,
                failure: None,
            }
        } else {
            let exited = Supervisor { overload_alive: false, ..self };
            exited.abandon(FAILURE_EXIT_CODE, SupervisionFailure::VerificationFailed { code })
        }
    }

    fn base_launched(self) -> (answer: Transition)
        ensures
            answer == self.on_base_launched(),
    {
        if !self.waiting_for_base_launch() {
            return self.ignore();
        }
        let monitor = self.policy.monitors_health() && self.health_record_ready;
        Transition {
            next: Supervisor {
                phase: Phase::BaseRunning,
                base_started: true,
                monitor_started: monitor,
                ..self
            },
            action: Action::WatchBase { monitor },
            failure: None,
        }
    }

    fn violation(self, verdict: Verdict) -> (answer: Transition)
        ensures
            answer == self.on_violation(verdict),
    {
        if self.phase == Phase::BaseRunning && self.base_running() && self.monitor_started
            && verdict.is_violation() {
            Transition {
                next: Supervisor { phase: Phase::Terminating, ..self },
                action: Action::TerminateBase {
                    request_overload_kill: verdict == Verdict::FailureThresholdReached,
                    code: FORCED_EXIT_CODE,
                },
                failure: None,
            }
        } else {
            self.ignore()
        }
    }

    fn base_exited(self, code: i32) -> (answer: Transition)
        ensures
            answer == self.on_base_exited(code),
    {
        if !self.base_running() {
            return self.ignore();
        }
        Transition {
            next: Supervisor {
                phase: Phase::Terminating,
                base_exited: true,
                overload_alive: false,
                exit_code: code,
                ..self
            },
            action: Action::CleanUp {
                terminate_overload: self.overload_alive,
                join_monitor: self.monitor_started,
            },
            failure: None,
        }
    }

    fn cleaned_up(self) -> (answer: Transition)
        ensures
            answer == self.on_cleaned_up(),
    {
        if self.phase == Phase::Terminating && !self.base_running() {
            Transition {
                next: Supervisor { phase: Phase::Done, ..self },
                action: Action::Exit { code: self.exit_code },
                failure: None,
            }
        } else {
            self.ignore()
        }
    }

    /// Takes in an event and answers with the supervisor after it, the action the
    /// driver is to carry out, and the failure to log, if the event is one.
    pub fn step(self, event: Event) -> (answer: Transition)
        ensures
            answer == self.after(event),
    {
        match event {
            Event::Started { health_record_ready } => self.started(health_record_ready),
            Event::OverloadLaunchFailed => {
                if self.phase == Phase::OverloadStarting {
                    self.abandon(FAILURE_EXIT_CODE, SupervisionFailure::OverloadNotStarted)
                } else {
                    self.ignore()
                }
            },
            Event::OverloadLaunched => self.overload_launched(),
            Event::OverloadExited { code } => self.overload_exited(code),
            Event::BaseLaunched => self.base_launched(),
            Event::BaseLaunchFailed => {
                if self.waiting_for_base_launch() {
                    self.abandon(BASE_NOT_STARTED_EXIT_CODE, SupervisionFailure::BaseNotStarted)
                } else {
                    self.ignore()
                }
            },
            Event::Violation { verdict } => self.violation(verdict),
            Event::BaseExited { code } => self.base_exited(code),
            Event::CleanedUp => self.cleaned_up(),
        }
    }
}

/// The supervisor after a list of events came in one by one.
pub open spec fn reached(start: Supervisor, events: Seq<Event>) -> Supervisor
    decreases events.len(),
{
    if events.len() == 0 {
        start
    } else {
        reached(start, events.drop_last()).after(events.last()).next
    }
}

/// The action that the event at position `at` of a run is answered with.
pub open spec fn action_at(start: Supervisor, events: Seq<Event>, at: int) -> Action
    recommends
        0 <= at < events.len(),
{
    reached(start, events.take(at)).after(events[at]).action
}

/// Whether a run was given up before its base was started.
pub open spec fn abandoned(supervisor: Supervisor) -> bool {
    !supervisor.base_started && (supervisor.phase == Phase::Terminating || supervisor.phase
        == Phase::Done)
}

/// A run that has not begun is well formed.
pub proof fn lemma_initial_is_well_formed(policy: MergePolicy)
    ensures
        Supervisor::initial(policy).well_formed(),
{
}

/// No event leads out of the well-formed supervisors, and none changes the policy.
pub proof fn lemma_step_keeps_well_formed(supervisor: Supervisor, event: Event)
    requires
        supervisor.well_formed(),
    ensures
        supervisor.after(event).next.well_formed(),
        supervisor.after(event).next.policy == supervisor.policy,
{
}

/// Whatever is reported in whatever order, the supervisor stays well formed. So in every
/// run a health record is shared only under a policy that watches health, the monitor
/// runs only beside a started base, the base is started only after the overload, and a
/// run that is done has no overload left alive.
pub proof fn lemma_every_run_is_well_formed(policy: MergePolicy, events: Seq<Event>)
    ensures
        reached(Supervisor::initial(policy), events).well_formed(),
        reached(Supervisor::initial(policy), events).policy == policy,
    decreases events.len(),
{
    if events.len() > 0 {
        lemma_every_run_is_well_formed(policy, events.drop_last());
        lemma_step_keeps_well_formed(
            reached(Supervisor::initial(policy), events.drop_last()),
            events.last(),
        );
    }
}

/// The base is started only after the overload, and under a policy that verifies first
/// only in answer to the overload's exit with zero.
pub proof fn lemma_base_launch_needs_overload(supervisor: Supervisor, event: Event)
    requires
        supervisor.well_formed(),
        supervisor.after(event).action == Action::LaunchBase,
    ensures
        supervisor.after(event).next.overload_started,
        !supervisor.base_started,
        supervisor.policy.waits_for_overload() ==> event == (Event::OverloadExited { code: 0 })
            && supervisor.after(event).next.overload_verified,
        !supervisor.policy.waits_for_overload() ==> event == Event::OverloadLaunched,
{
}

/// An overload that fails its verification ends the run: the failure is reported with
/// the overload's code, the run takes the failure code as its own, and the base is not
/// started.
pub proof fn lemma_failed_verification_abandons(supervisor: Supervisor, code: i32)
    requires
        supervisor.well_formed(),
        supervisor.phase == Phase::OverloadRunning(OverloadStage::AwaitingVerification),
        code != 0,
    ensures
        ({
            let answer = supervisor.after(Event::OverloadExited { code });
            &&& abandoned(answer.next)
            &&& answer.next.phase == Phase::Terminating
            &&& answer.next.exit_code == FAILURE_EXIT_CODE
            &&& answer.failure == Some(SupervisionFailure::VerificationFailed { code })
            &&& answer.action == (Action::CleanUp {
                terminate_overload: false,
                join_monitor: false,
            })
        }),
{
}

/// A run that was given up never starts its base, whatever is reported to it
/// afterwards, and keeps its exit code.
pub proof fn lemma_abandoned_run_never_starts_base(
    supervisor: Supervisor,
    events: Seq<Event>,
    at: int,
)
    requires
        abandoned(supervisor),
        0 <= at < events.len(),
    ensures
        abandoned(reached(supervisor, events)),
        reached(supervisor, events).exit_code == supervisor.exit_code,
        action_at(supervisor, events, at) != Action::LaunchBase,
        !(action_at(supervisor, events, at) is WatchBase),
        !(action_at(supervisor, events, at) is LaunchOverload),
{
    lemma_abandoned_run_stays_abandoned(supervisor, events);
    lemma_abandoned_run_stays_abandoned(supervisor, events.take(at));
}

proof fn lemma_abandoned_run_stays_abandoned(supervisor: Supervisor, events: Seq<Event>)
    requires
        abandoned(supervisor),
    ensures
        abandoned(reached(supervisor, events)),
        reached(supervisor, events).exit_code == supervisor.exit_code,
    decreases events.len(),
{
    if events.len() > 0 {
        lemma_abandoned_run_stays_abandoned(supervisor, events.drop_last());
    }
}

/// When the base exits, by itself or ended by the monitor, the loader takes the base's
/// code as its own and cleans up: it stops the overload if that still lives and joins
/// the monitor if one was started. Under a policy that does not wait for the overload,
/// the overload still lives then, so it is always stopped.
pub proof fn lemma_base_exit_stops_overload(supervisor: Supervisor, code: i32)
    requires
        supervisor.well_formed(),
        supervisor.base_is_running(),
    ensures
        ({
            let answer = supervisor.after(Event::BaseExited { code });
            &&& answer.action == (Action::CleanUp {
                terminate_overload: supervisor.overload_alive,
                join_monitor: supervisor.monitor_started,
            })
            &&& answer.next.phase == Phase::Terminating
            &&& answer.next.exit_code == code
            &&& !answer.next.overload_alive
            &&& !supervisor.policy.waits_for_overload() ==> supervisor.overload_alive
        }),
{
}

/// A violation that the monitor finds while the base runs has the base ended by force,
/// with a kill request to the overload first where the failure threshold was reached.
pub proof fn lemma_violation_ends_base(supervisor: Supervisor, verdict: Verdict)
    requires
        supervisor.well_formed(),
        supervisor.phase == Phase::BaseRunning,
        supervisor.monitor_started,
        verdict != Verdict::Healthy,
    ensures
        ({
            let answer = supervisor.after(Event::Violation { verdict });
            &&& answer.action == (Action::TerminateBase {
                request_overload_kill: verdict == Verdict::FailureThresholdReached,
                code: FORCED_EXIT_CODE,
            })
            &&& answer.next.phase == Phase::Terminating
            &&& answer.next.base_is_running()
        }),
{
}

/// A base that is ended by force exits with the code it was ended with, and that code
/// is not zero: the run leaves with a failure.
pub proof fn lemma_forced_end_exits_nonzero(supervisor: Supervisor, verdict: Verdict)
    requires
        supervisor.well_formed(),
        supervisor.phase == Phase::BaseRunning,
        supervisor.monitor_started,
        verdict != Verdict::Healthy,
    ensures
        ({
            let forced = supervisor.after(Event::Violation { verdict });
            let exited = forced.next.after(Event::BaseExited { code: FORCED_EXIT_CODE });
            let left = exited.next.after(Event::CleanedUp);
            &&& forced.action == (Action::TerminateBase {
                request_overload_kill: verdict == Verdict::FailureThresholdReached,
                code: FORCED_EXIT_CODE,
            })
            &&& FORCED_EXIT_CODE != 0
            &&& exited.action is CleanUp
            &&& left.action == (Action::Exit { code: FORCED_EXIT_CODE })
            &&& left.next.phase == Phase::Done
        }),
{
}

/// Once the base has exited its code stays the run's, and it is the code that the run
/// leaves with.
pub proof fn lemma_exit_code_is_kept(supervisor: Supervisor, event: Event)
    requires
        supervisor.well_formed(),
        supervisor.base_exited,
    ensures
        supervisor.after(event).next.exit_code == supervisor.exit_code,
        supervisor.after(event).next.base_exited,
        supervisor.after(event).action is Exit ==> supervisor.after(event).action == (
        Action::Exit { code: supervisor.exit_code }),
{
}

/// A run leaves only after it has cleaned up, and a run that is done answers nothing
/// any more: to report an exit or ask for an end twice is no error.
pub proof fn lemma_done_is_final(supervisor: Supervisor, event: Event)
    ensures
        supervisor.after(event).action is Exit ==> supervisor.phase == Phase::Terminating
            && event == Event::CleanedUp && supervisor.after(event).next.phase == Phase::Done,
        supervisor.phase == Phase::Done ==> supervisor.after(event) == supervisor.ignoring(),
{
}

} // verus!
