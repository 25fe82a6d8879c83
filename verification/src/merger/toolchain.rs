//! The external tools, the scratch files and the single steps of a merge.

use vstd::prelude::*;
use vstd::string::StringExecFns;
use crate::models::binary::{classified, Platform};
use crate::policy::{MergeMode, PayloadRole};

verus! {

/// An external program the pipeline shells out to.
#[derive(Debug, Clone, Copy, PartialEq, Eq, Structural)]
pub enum Tool {
    /// The MinGW cross-compiler, which also links.
    Compiler,
    /// The MinGW object-format converter.
    ObjectConverter,
}

impl Tool {
    pub open spec fn program_text(self) -> Seq<char> {
        match self {
            Tool::Compiler => "x86_64-w64-mingw32-gcc"@,
            Tool::ObjectConverter => "x86_64-w64-mingw32-objcopy"@,
        }
    }

    /// The name under which the tool is looked up and started.
    pub fn program(&self) -> (name: &'static str)
        ensures
            name@ == self.program_text(),
    {
        match self {
            Tool::Compiler => "x86_64-w64-mingw32-gcc",
            Tool::ObjectConverter => "x86_64-w64-mingw32-objcopy",
        }
    }

    pub open spec fn description_text(self) -> Seq<char> {
        match self {
            Tool::Compiler => "MinGW cross-compiler"@,
            Tool::ObjectConverter => "MinGW object converter"@,
        }
    }

    /// What the tool is, as error messages call it.
    pub fn description(&self) -> (text: &'static str)
        ensures
            text@ == self.description_text(),
    {
        match self {
            Tool::Compiler => "MinGW cross-compiler",
            Tool::ObjectConverter => "MinGW object converter",
        }
    }

    pub open spec fn install_hint_text(self) -> Seq<char> {
        match self {
            Tool::Compiler => "Install with: apt-get install mingw-w64 gcc-mingw-w64-x86-64"@,
            Tool::ObjectConverter =>
                "Install with: apt-get install mingw-w64 binutils-mingw-w64-x86-64"@,
        }
    }

    /// How to get the tool where it is missing.
    pub fn install_hint(&self) -> (text: &'static str)
        ensures
            text@ == self.install_hint_text(),
    {
        match self {
            Tool::Compiler => "Install with: apt-get install mingw-w64 gcc-mingw-w64-x86-64",
            Tool::ObjectConverter =>
                "Install with: apt-get install mingw-w64 binutils-mingw-w64-x86-64",
        }
    }
}

/// A file the pipeline writes into the scratch directory before any tool runs on it.
#[derive(Debug, Clone, Copy, PartialEq, Eq, Structural)]
pub enum StagedFile {
    BasePayload,
    OverloadPayload,
    /// The fixed loader of a stop-on-exit artifact.
    LoaderStub,
    /// The generated loader of a health-monitored artifact.
    Loader,
}

impl StagedFile {
    pub open spec fn name_text(self) -> Seq<char> {
        match self {
            StagedFile::BasePayload => "base.exe"@,
            StagedFile::OverloadPayload => "overload.exe"@,
            StagedFile::LoaderStub => "loader_stub.c"@,
            StagedFile::Loader => "loader.c"@,
        }
    }

    /// The file's name inside the scratch directory.
    pub fn name(&self) -> (name: &'static str)
        ensures
            name@ == self.name_text(),
    {
        match self {
            StagedFile::BasePayload => "base.exe",
            StagedFile::OverloadPayload => "overload.exe",
            StagedFile::LoaderStub => "loader_stub.c",
            StagedFile::Loader => "loader.c",
        }
    }

    pub open spec fn description_text(self) -> Seq<char> {
        match self {
            StagedFile::BasePayload => "base binary"@,
            StagedFile::OverloadPayload => "overload binary"@,
            StagedFile::LoaderStub => "loader stub"@,
            StagedFile::Loader => "loader stub"@,
        }
    }

    /// What the file is, as error messages call it.
    pub fn description(&self) -> (text: &'static str)
        ensures
            text@ == self.description_text(),
    {
        match self {
            StagedFile::BasePayload => "base binary",
            StagedFile::OverloadPayload => "overload binary",
            StagedFile::LoaderStub => "loader stub",
            StagedFile::Loader => "loader stub",
        }
    }
}

pub open spec fn artifact_name_text() -> Seq<char> {
    "merged.exe"@
}

/// The name of the finished artifact inside the scratch directory.
pub fn artifact_name() -> (name: &'static str)
    ensures
        name@ == artifact_name_text(),
{
    "merged.exe"
}

/// The characters of each string of a list.
pub open spec fn texts(words: Seq<&'static str>) -> Seq<Seq<char>> {
    Seq::new(words.len(), |i: int| words[i]@)
}

/// A tool with the arguments it is started with, in the scratch directory.
#[derive(Debug, Clone)]
pub struct Invocation {
    pub tool: Tool,
    pub arguments: Vec<&'static str>,
}

/// One unit of outside work. A merge is a fixed list of these, run in order until one fails.
#[derive(Debug, Clone, Copy, PartialEq, Eq, Structural)]
pub enum Step {
    /// Find out whether a tool is installed.
    Probe(Tool),
    /// Write a file into the scratch directory.
    Stage(StagedFile),
    /// Turn a staged payload into a linkable object that exposes its bytes
    /// between a start and an end symbol.
    Embed(PayloadRole),
    /// Compile the loader stub to an object.
    CompileLoader,
    /// Link the loader object and both payload objects into the artifact.
    Link,
    /// Compile the generated loader and link it with both payload objects, in one run.
    CompileAndLink,
    /// Read the artifact back and see that it is a Windows PE image.
    InspectArtifact,
}

impl Step {
    /// The tool a step runs, if it runs one.
    pub open spec fn tool_text(&self) -> Option<Tool> {
        match *self {
            Step::Probe(_) => None,
            Step::Stage(_) => None,
            Step::Embed(_) => Some(Tool::ObjectConverter),
            Step::CompileLoader => Some(Tool::Compiler),
            Step::Link => Some(Tool::Compiler),
            Step::CompileAndLink => Some(Tool::Compiler),
            Step::InspectArtifact => None,
        }
    }

    /// The arguments of the tool a step runs; empty for a step that runs none.
    pub open spec fn arguments_text(self) -> Seq<Seq<char>> {
        match self {
            Step::Probe(_) => seq![],
            Step::Stage(_) => seq![],
            Step::InspectArtifact => seq![],
            Step::Embed(PayloadRole::Base) => seq![
                "-I"@,
                "binary"@,
                "-O"@,
                "pe-x86-64"@,
                "-B"@,
                "i386:x86-64"@,
                "base.exe"@,
                "base.o"@,
            ],
            Step::Embed(PayloadRole::Overload) => seq![
                "-I"@,
                "binary"@,
                "-O"@,
                "pe-x86-64"@,
                "-B"@,
                "i386:x86-64"@,
                "overload.exe"@,
                "overload.o"@,
            ],
            Step::CompileLoader => seq!["-c"@, "loader_stub.c"@, "-o"@, "loader.o"@],
            Step::Link => seq![
                "loader.o"@,
                "base.o"@,
                "overload.o"@,
                "-o"@,
                "merged.exe"@,
                "-static"@,
            ],
            Step::CompileAndLink => seq![
                "-o"@,
                "merged.exe"@,
                "loader.c"@,
                "base.o"@,
                "overload.o"@,
                "-static"@,
            ],
        }
    }

    #[verifier::when_used_as_spec(tool_text)]
    pub fn tool(&self) -> (tool: Option<Tool>)
        ensures
            tool == self.tool_text(),
    {
        match self {
            Step::Probe(_) => None,
            Step::Stage(_) => None,
            Step::Embed(_) => Some(Tool::ObjectConverter),
            Step::CompileLoader => Some(Tool::Compiler),
            Step::Link => Some(Tool::Compiler),
            Step::CompileAndLink => Some(Tool::Compiler),
            Step::InspectArtifact => None,
        }
    }

    /// The command line of a step that runs a tool; `None` for a step that runs none.
    pub fn invocation(&self) -> (call: Option<Invocation>)
        ensures
            call is Some <==> self.tool() is Some,
            call matches Some(inv) ==> Some(inv.tool) == self.tool() && texts(inv.arguments@)
                == self.arguments_text(),
    {
        match self {
            Step::Probe(_) => None,
            Step::Stage(_) => None,
            Step::InspectArtifact => None,
            Step::Embed(role) => {
                let mut arguments: Vec<&'static str> = Vec::new();
                arguments.push("-I");
                arguments.push("binary");
                arguments.push("-O");
                arguments.push("pe-x86-64");
                arguments.push("-B");
                arguments.push("i386:x86-64");
                match role {
                    PayloadRole::Base => {
                        arguments.push("base.exe");
                        arguments.push("base.o");
                    },
                    PayloadRole::Overload => {
                        arguments.push("overload.exe");
                        arguments.push("overload.o");
                    },
                }
                assert(texts(arguments@) =~= self.arguments_text());
                Some(Invocation { tool: Tool::ObjectConverter, arguments })
            },
            Step::CompileLoader => {
                let mut arguments: Vec<&'static str> = Vec::new();
                arguments.push("-c");
                arguments.push("loader_stub.c");
                arguments.push("-o");
                arguments.push("loader.o");
                assert(texts(arguments@) =~= self.arguments_text());
                Some(Invocation { tool: Tool::Compiler, arguments })
            },
            Step::Link => {
                let mut arguments: Vec<&'static str> = Vec::new();
                arguments.push("loader.o");
                arguments.push("base.o");
                arguments.push("overload.o");
                arguments.push("-o");
                arguments.push("merged.exe");
                arguments.push("-static");
                assert(texts(arguments@) =~= self.arguments_text());
                Some(Invocation { tool: Tool::Compiler, arguments })
            },
            Step::CompileAndLink => {
                let mut arguments: Vec<&'static str> = Vec::new();
                arguments.push("-o");
                arguments.push("merged.exe");
                arguments.push("loader.c");
                arguments.push("base.o");
                arguments.push("overload.o");
                arguments.push("-static");
                assert(texts(arguments@) =~= self.arguments_text());
                Some(Invocation { tool: Tool::Compiler, arguments })
            },
        }
    }
}

/// The steps of a merge for each mode, in the order in which they run. Both tools are
/// looked for before anything is written, and the artifact is read back at the end.
pub open spec fn plan(mode: MergeMode) -> Seq<Step> {
    match mode {
        MergeMode::StopOnExit => seq![
            Step::Probe(Tool::Compiler),
            Step::Probe(Tool::ObjectConverter),
            Step::Stage(StagedFile::BasePayload),
            Step::Stage(StagedFile::OverloadPayload),
            Step::Stage(StagedFile::LoaderStub),
            Step::Embed(PayloadRole::Base),
            Step::Embed(PayloadRole::Overload),
            Step::CompileLoader,
            Step::Link,
            Step::InspectArtifact,
        ],
        MergeMode::HealthMonitored => seq![
            Step::Probe(Tool::Compiler),
            Step::Probe(Tool::ObjectConverter),
            Step::Stage(StagedFile::BasePayload),
            Step::Stage(StagedFile::OverloadPayload),
            Step::Stage(StagedFile::Loader),
            Step::Embed(PayloadRole::Base),
            Step::Embed(PayloadRole::Overload),
            Step::CompileAndLink,
            Step::InspectArtifact,
        ],
    }
}

/// The number of steps of a merge.
pub fn plan_len(mode: MergeMode) -> (len: usize)
    ensures
        len == plan(mode).len(),
{
    match mode {
        MergeMode::StopOnExit => 10,
        MergeMode::HealthMonitored => 9,
    }
}

/// The step at a position of the plan, `None` past its end.
pub fn plan_step(mode: MergeMode, index: usize) -> (step: Option<Step>)
    ensures
        step == if index < plan(mode).len() {
            Some(plan(mode)[index as int])
        } else {
            None
        },
{
    match (mode, index) {
        (_, 0) => Some(Step::Probe(Tool::Compiler)),
        (_, 1) => Some(Step::Probe(Tool::ObjectConverter)),
        (_, 2) => Some(Step::Stage(StagedFile::BasePayload)),
        (_, 3) => Some(Step::Stage(StagedFile::OverloadPayload)),
        (MergeMode::StopOnExit, 4) => Some(Step::Stage(StagedFile::LoaderStub)),
        (MergeMode::HealthMonitored, 4) => Some(Step::Stage(StagedFile::Loader)),
        (_, 5) => Some(Step::Embed(PayloadRole::Base)),
        (_, 6) => Some(Step::Embed(PayloadRole::Overload)),
        (MergeMode::StopOnExit, 7) => Some(Step::CompileLoader),
        (MergeMode::HealthMonitored, 7) => Some(Step::CompileAndLink),
        (MergeMode::StopOnExit, 8) => Some(Step::Link),
        (MergeMode::HealthMonitored, 8) => Some(Step::InspectArtifact),
        (MergeMode::StopOnExit, 9) => Some(Step::InspectArtifact),
        _ => None,
    }
}

/// Every tool that a plan runs is looked for earlier in the plan, before the first file
/// is written: a missing tool ends the merge before it has touched the scratch
/// directory.
pub proof fn lemma_tools_are_probed_first(mode: MergeMode, at: int)
    requires
        0 <= at < plan(mode).len(),
    ensures
        plan(mode)[at].tool() matches Some(tool) ==> exists|probe: int|
            0 <= probe < at && #[trigger] plan(mode)[probe] == Step::Probe(tool),
        plan(mode)[at] is Stage ==> forall|probe: int|
            at <= probe < plan(mode).len() ==> !(#[trigger] plan(mode)[probe] is Probe),
{
    if plan(mode)[at].tool() is Some {
        let tool = plan(mode)[at].tool()->0;
        match tool {
            Tool::Compiler => {
                assert(plan(mode)[0] == Step::Probe(tool));
            },
            Tool::ObjectConverter => {
                assert(plan(mode)[1] == Step::Probe(tool));
            },
        }
    }
}

/// The last step of every plan reads the artifact back, and nothing follows it.
pub proof fn lemma_plans_end_with_inspection(mode: MergeMode)
    ensures
        plan(mode).len() > 0,
        plan(mode).last() == Step::InspectArtifact,
{
}

/// How a step ended, as whoever performed it reports it.
#[derive(Debug, Clone)]
pub enum StepOutcome {
    /// The tool is installed, the file is written, the tool exited with success.
    Completed,
    /// The tool is absent, the write failed, or the tool exited with failure.
    /// `detail` holds the error's text, for a tool what it wrote to its error stream.
    Failed { detail: String },
    /// The tool could not be started at all.
    NotStarted { detail: String },
}

/// A step's outcome with its text as characters.
pub enum OutcomeView {
    Completed,
    Failed { detail: Seq<char> },
    NotStarted { detail: Seq<char> },
}

impl View for StepOutcome {
    type V = OutcomeView;

    open spec fn view(&self) -> OutcomeView {
        match self {
            StepOutcome::Completed => OutcomeView::Completed,
            StepOutcome::Failed { detail } => OutcomeView::Failed { detail: detail@ },
            StepOutcome::NotStarted { detail } => OutcomeView::NotStarted { detail: detail@ },
        }
    }
}

impl OutcomeView {
    /// The text that came with a failure; empty for a completed step.
    pub open spec fn detail(self) -> Seq<char> {
        match self {
            OutcomeView::Completed => Seq::empty(),
            OutcomeView::Failed { detail } => detail,
            OutcomeView::NotStarted { detail } => detail,
        }
    }
}

/// What reading the artifact back comes to: `None` stands for a file that could not be
/// read.
pub open spec fn inspection_outcome(image: Option<Seq<u8>>) -> OutcomeView {
    match image {
        None => OutcomeView::Failed { detail: "the file cannot be read"@ },
        Some(bytes) => if classified(bytes) == Platform::WINDOWS_PE {
            OutcomeView::Completed
        } else {
            OutcomeView::Failed { detail: "the file is no Windows PE image"@ }
        },
    }
}

impl StepOutcome {
    /// The outcome of looking for a tool.
    pub fn from_probe(found: bool) -> (outcome: StepOutcome)
        ensures
            outcome@ == if found {
                OutcomeView::Completed
            } else {
                OutcomeView::Failed { detail: Seq::empty() }
            },
    {
        if found {
            StepOutcome::Completed
        } else {
            StepOutcome::Failed { detail: String::new() }
        }
    }

    /// The outcome of writing a file: the error's text where the write failed.
    pub fn from_write(error: Option<String>) -> (outcome: StepOutcome)
        ensures
            outcome@ == match error {
                None => OutcomeView::Completed,
                Some(detail) => OutcomeView::Failed { detail: detail@ },
            },
    {
        match error {
            None => StepOutcome::Completed,
            Some(detail) => StepOutcome::Failed { detail },
        }
    }

    /// The outcome of a tool that ran to its end: success is a zero exit status,
    /// anything else fails with what the tool wrote to its error stream.
    pub fn from_exit(success: bool, error_output: String) -> (outcome: StepOutcome)
        ensures
            outcome@ == if success {
                OutcomeView::Completed
            } else {
                OutcomeView::Failed { detail: error_output@ }
            },
    {
        if success {
            StepOutcome::Completed
        } else {
            StepOutcome::Failed { detail: error_output }
        }
    }

    /// The outcome of reading the artifact back: completed where the file could be read
    /// and begins with the header of a Windows PE image, failed otherwise. An absent,
    /// empty or cut-off file is no such image.
    pub fn from_inspection(image: Option<&[u8]>) -> (outcome: StepOutcome)
        ensures
            outcome@ == inspection_outcome(
                match image {
                    Some(bytes) => Some(bytes@),
                    None => None,
                },
            ),
    {
        match image {
            None => StepOutcome::Failed { detail: String::from_str("the file cannot be read") },
            Some(bytes) => {
                if Platform::detect(bytes).is_windows_pe() {
                    StepOutcome::Completed
                } else {
                    StepOutcome::Failed {
                        detail: String::from_str("the file is no Windows PE image"),
                    }
                }
            },
        }
    }

    /// The outcome of a tool that could not be started.
    pub fn from_launch_failure(detail: String) -> (outcome: StepOutcome)
        ensures
            outcome@ == (OutcomeView::NotStarted { detail: detail@ }),
    {
        StepOutcome::NotStarted { detail }
    }
}

} // verus!
