//! The course of one merge: which step comes next, and what a step's outcome leads to.
//!
//! The orchestrator performs nothing itself. Its caller carries out the pending step in
//! the scratch directory, reports how it ended, and gets back either the run moved on by
//! one step or the error that ends it. A failed run is never resumed: the scratch
//! directory may hold anything by then, so a new merge starts from a clean one.

use vstd::prelude::*;
use crate::merger::error::{MergeError, MergeErrorView};
use crate::merger::toolchain::{
    artifact_name,
    artifact_name_text,
    plan,
    plan_len,
    plan_step,
    OutcomeView,
    Step,
    StepOutcome,
    Tool,
};
use crate::merger::toolchain::StagedFile;
use crate::merger::windows::{
    generate_loader_source,
    loader_source_text,
    staged_bytes,
    staged_content,
};
use crate::policy::MergePolicy;

verus! {

/// The error that ends a run when `step` did not complete.
pub open spec fn failure_of(step: Step, outcome: OutcomeView) -> MergeErrorView
    recommends
        !(outcome is Completed),
{
    match step {
        Step::Probe(tool) => MergeErrorView::MissingTool { tool },
        Step::Stage(file) => MergeErrorView::ScratchWrite { file, detail: outcome.detail() },
        Step::InspectArtifact => MergeErrorView::ArtifactRejected { detail: outcome.detail() },
        _ => match outcome {
            OutcomeView::NotStarted { detail } => MergeErrorView::ToolNotStarted {
                tool: step.tool()->0,
                detail,
            },
            _ => MergeErrorView::ToolFailed {
                tool: step.tool()->0,
                error_output: outcome.detail(),
            },
        },
    }
}

/// A merge under way: the policy of the artifact and how many steps are behind it.
///
/// A run is neither copied nor cloned: `advance` takes it and hands back the run after
/// the step or the error, so a step that failed cannot be reported a second time.
#[derive(Debug)]
pub struct MergeRun {
    policy: MergePolicy,
    completed: usize,
}

/// What a run is, to its callers.
pub struct RunView {
    pub policy: MergePolicy,
    pub completed: nat,
}

impl RunView {
    /// A run of which no step has been performed.
    pub open spec fn initial(policy: MergePolicy) -> RunView {
        RunView { policy, completed: 0 }
    }

    pub open spec fn steps(self) -> Seq<Step> {
        plan(self.policy.mode)
    }

    pub open spec fn well_formed(self) -> bool {
        self.completed <= self.steps().len()
    }

    /// The step to perform next, `None` once all are done.
    pub open spec fn pending(self) -> Option<Step> {
        if self.completed < self.steps().len() {
            Some(self.steps()[self.completed as int])
        } else {
            None
        }
    }

    /// Whether every step is done, so that the artifact stands in the scratch directory.
    pub open spec fn finished(self) -> bool {
        self.pending() is None
    }

    /// The run after the pending step ended with `outcome`. A finished run stays as it is.
    pub open spec fn advance(self, outcome: OutcomeView) -> Result<RunView, MergeErrorView> {
        match self.pending() {
            None => Ok(self),
            Some(step) => if outcome is Completed {
                Ok(RunView { policy: self.policy, completed: self.completed + 1 })
            } else {
                Err(failure_of(step, outcome))
            },
        }
    }
}

impl View for MergeRun {
    type V = RunView;

    closed spec fn view(&self) -> RunView {
        RunView { policy: self.policy, completed: self.completed as nat }
    }
}

impl MergeRun {
    #[verifier::type_invariant]
    spec fn within_plan(self) -> bool {
        self.completed <= plan(self.policy.mode).len()
    }

    /// Starts a run for an artifact with the given policy.
    pub(crate) fn begin(policy: MergePolicy) -> (run: MergeRun)
        ensures
            run@ == RunView::initial(policy),
    {
        MergeRun { policy, completed: 0 }
    }

    pub fn policy(&self) -> (policy: MergePolicy)
        ensures
            policy == self@.policy,
            self@.well_formed(),
    {
        proof {
            use_type_invariant(self);
        }
        self.policy
    }

    /// The number of steps behind this run.
    pub fn completed_steps(&self) -> (count: usize)
        ensures
            count == self@.completed,
            self@.well_formed(),
    {
        proof {
            use_type_invariant(self);
        }
        self.completed
    }

    /// The step the caller is to perform next.
    pub fn pending(&self) -> (step: Option<Step>)
        ensures
            step == self@.pending(),
    {
        plan_step(self.policy.mode, self.completed)
    }

    pub fn is_finished(&self) -> (finished: bool)
        ensures
            finished == self@.finished(),
    {
        self.completed >= plan_len(self.policy.mode)
    }

    /// The artifact's name inside the scratch directory, once every step is done.
    pub fn artifact(&self) -> (name: Option<&'static str>)
        ensures
            name is Some <==> self@.finished(),
            name matches Some(text) ==> text@ == artifact_name_text(),
    {
        if self.is_finished() {
            Some(artifact_name())
        } else {
            None
        }
    }

    /// The source of the loader that this run stages and compiles.
    pub fn loader_source(&self) -> (source: String)
        ensures
            source@ == loader_source_text(self@.policy),
    {
        generate_loader_source(self.policy)
    }

    /// The bytes that a staging step of this run writes into `file`, given the two
    /// payloads of the merge.
    pub fn staged_bytes(&self, file: StagedFile, base_data: &[u8], overload_data: &[u8]) -> (bytes:
        Vec<u8>)
        ensures
            bytes@ == staged_content(self@.policy, file, base_data@, overload_data@),
    {
        staged_bytes(self.policy, file, base_data, overload_data)
    }

    /// Takes in how the pending step ended. A completed step moves the run on by one;
    /// anything else ends it with the error that names the step's file or tool.
    pub fn advance(self, outcome: StepOutcome) -> (next: Result<MergeRun, MergeError>)
        ensures
            match self@.advance(outcome@) {
                Ok(run) => next matches Ok(moved) && moved@ == run && run.well_formed(),
                Err(error) => next matches Err(raised) && raised@ == error,
            },
    {
        proof {
            use_type_invariant(&self);
        }
        match plan_step(self.policy.mode, self.completed) {
            None => Ok(self),
            Some(step) => match outcome {
                StepOutcome::Completed => Ok(
                    MergeRun { policy: self.policy, completed: self.completed + 1 },
                ),
                StepOutcome::Failed { detail } => Err(
                    match step {
                        Step::Probe(tool) => MergeError::MissingTool { tool },
                        Step::Stage(file) => MergeError::ScratchWrite { file, detail },
                        Step::InspectArtifact => MergeError::ArtifactRejected { detail },
                        Step::Embed(_) => MergeError::ToolFailed {
                            tool: Tool::ObjectConverter,
                            error_output: detail,
                        },
                        _ => MergeError::ToolFailed { tool: Tool::Compiler, error_output: detail },
                    },
                ),
                StepOutcome::NotStarted { detail } => Err(
                    match step {
                        Step::Probe(tool) => MergeError::MissingTool { tool },
                        Step::Stage(file) => MergeError::ScratchWrite { file, detail },
                        Step::InspectArtifact => MergeError::ArtifactRejected { detail },
                        Step::Embed(_) => MergeError::ToolNotStarted {
                            tool: Tool::ObjectConverter,
                            detail,
                        },
                        _ => MergeError::ToolNotStarted { tool: Tool::Compiler, detail },
                    },
                ),
            },
        }
    }
}

/// The run after a list of outcomes came in one by one, or the error at which it ended.
pub open spec fn replay(start: RunView, outcomes: Seq<OutcomeView>) -> Result<
    RunView,
    MergeErrorView,
>
    decreases outcomes.len(),
{
    if outcomes.len() == 0 {
        Ok(start)
    } else {
        match start.advance(outcomes[0]) {
            Ok(next) => replay(next, outcomes.drop_first()),
            Err(error) => Err(error),
        }
    }
}

/// The number of steps a run still has before it.
pub open spec fn remaining(run: RunView) -> int {
    run.steps().len() - run.completed
}

proof fn lemma_replay_finishes(start: RunView, outcomes: Seq<OutcomeView>)
    requires
        start.well_formed(),
    ensures
        (replay(start, outcomes) matches Ok(end) && end.finished()) <==> (outcomes.len()
            >= remaining(start) && forall|i: int|
            0 <= i < remaining(start) ==> outcomes[i] is Completed),
        replay(start, outcomes) matches Ok(end) ==> end.well_formed() && end.policy
            == start.policy,
    decreases outcomes.len(),
{
    if outcomes.len() > 0 {
        match start.advance(outcomes[0]) {
            Ok(next) => {
                let rest = outcomes.drop_first();
                lemma_replay_finishes(next, rest);
                assert(forall|i: int| 0 <= i < rest.len() ==> rest[i] == outcomes[i + 1]);
                if start.finished() {
                    assert(next == start);
                } else {
                    assert(remaining(next) == remaining(start) - 1);
                    if outcomes.len() >= remaining(start) && forall|i: int|
                        0 <= i < remaining(start) ==> outcomes[i] is Completed {
                        assert forall|i: int| 0 <= i < remaining(next) implies rest[i]
                            is Completed by {
                            assert(outcomes[i + 1] is Completed);
                        }
                    }
                    if rest.len() >= remaining(next) && forall|i: int|
                        0 <= i < remaining(next) ==> rest[i] is Completed {
                        assert forall|i: int| 0 <= i < remaining(start) implies outcomes[i]
                            is Completed by {
                            if i > 0 {
                                assert(rest[i - 1] is Completed);
                            }
                        }
                    }
                }
            },
            Err(_) => {
                assert(!(outcomes[0] is Completed));
                assert(remaining(start) > 0);
            },
        }
    }
}

proof fn lemma_replay_fails(start: RunView, outcomes: Seq<OutcomeView>, at: int)
    requires
        start.well_formed(),
        0 <= at < outcomes.len(),
        at < remaining(start),
        !(outcomes[at] is Completed),
        forall|i: int| 0 <= i < at ==> outcomes[i] is Completed,
    ensures
        replay(start, outcomes) == Err::<RunView, MergeErrorView>(
            failure_of(start.steps()[start.completed + at], outcomes[at]),
        ),
    decreases outcomes.len(),
{
    if at > 0 {
        let next = start.advance(outcomes[0])->Ok_0;
        let rest = outcomes.drop_first();
        assert(forall|i: int| 0 <= i < rest.len() ==> rest[i] == outcomes[i + 1]);
        lemma_replay_fails(next, rest, at - 1);
    }
}

/// A run that begins with the first step of its plan ends with the artifact in place
/// exactly when every step of the plan was reported as completed. One step that was not
/// is enough to keep the run from ever presenting an artifact.
pub proof fn lemma_artifact_needs_every_step(policy: MergePolicy, outcomes: Seq<OutcomeView>)
    ensures
        (replay(RunView::initial(policy), outcomes) matches Ok(end) && end.finished()) <==> (
        outcomes.len() >= plan(policy.mode).len() && forall|i: int|
            0 <= i < plan(policy.mode).len() ==> outcomes[i] is Completed),
{
    lemma_replay_finishes(RunView::initial(policy), outcomes);
}

/// A run presents its artifact only after the step that reads the artifact back was
/// reported as completed: that step is the last of the plan.
pub proof fn lemma_artifact_needs_inspection(policy: MergePolicy, outcomes: Seq<OutcomeView>)
    requires
        replay(RunView::initial(policy), outcomes) matches Ok(end) && end.finished(),
    ensures
        outcomes.len() >= plan(policy.mode).len(),
        plan(policy.mode)[plan(policy.mode).len() - 1] == Step::InspectArtifact,
        outcomes[plan(policy.mode).len() - 1] is Completed,
{
    lemma_artifact_needs_every_step(policy, outcomes);
}

/// A run ends at the first step that was not reported as completed, with the error of
/// that step and that outcome. Whatever is reported afterwards changes nothing.
pub proof fn lemma_first_failure_ends_run(
    policy: MergePolicy,
    outcomes: Seq<OutcomeView>,
    at: int,
)
    requires
        0 <= at < outcomes.len(),
        at < plan(policy.mode).len(),
        !(outcomes[at] is Completed),
        forall|i: int| 0 <= i < at ==> outcomes[i] is Completed,
    ensures
        replay(RunView::initial(policy), outcomes) == Err::<RunView, MergeErrorView>(
            failure_of(plan(policy.mode)[at], outcomes[at]),
        ),
{
    lemma_replay_fails(RunView::initial(policy), outcomes, at);
}

} // verus!
