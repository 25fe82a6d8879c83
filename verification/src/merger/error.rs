//! What can go wrong while an artifact is built.

use vstd::prelude::*;
use vstd::string::StringExecFns;
use crate::merger::toolchain::{StagedFile, Tool};
use crate::models::binary::Platform;
use crate::policy::PayloadRole;

verus! {

/// The broad class of a build failure.
#[derive(Debug, Clone, Copy, PartialEq, Eq, Structural)]
pub enum ErrorKind {
    /// The request or the machine is not set up for a merge.
    Configuration,
    /// The scratch directory could not be written.
    Io,
    /// An external tool failed.
    Toolchain,
    /// The target platform is unknown or not supported.
    Detection,
}

/// A build failure, with the file or tool that is responsible for it.
#[derive(Debug, Clone)]
pub enum MergeError {
    MissingTool { tool: Tool },
    EmptyPayload { role: PayloadRole },
    ScratchWrite { file: StagedFile, detail: String },
    ToolNotStarted { tool: Tool, detail: String },
    ToolFailed { tool: Tool, error_output: String },
    /// The toolchain ran to its end, but what it left is no usable artifact.
    ArtifactRejected { detail: String },
    UnsupportedPlatform { platform: Platform },
}

/// A build failure with its text as characters.
pub enum MergeErrorView {
    MissingTool { tool: Tool },
    EmptyPayload { role: PayloadRole },
    ScratchWrite { file: StagedFile, detail: Seq<char> },
    ToolNotStarted { tool: Tool, detail: Seq<char> },
    ToolFailed { tool: Tool, error_output: Seq<char> },
    ArtifactRejected { detail: Seq<char> },
    UnsupportedPlatform { platform: Platform },
}

impl View for MergeError {
    type V = MergeErrorView;

    open spec fn view(&self) -> MergeErrorView {
        match self {
            MergeError::MissingTool { tool } => MergeErrorView::MissingTool { tool: *tool },
            MergeError::EmptyPayload { role } => MergeErrorView::EmptyPayload { role: *role },
            MergeError::ScratchWrite { file, detail } => MergeErrorView::ScratchWrite {
                file: *file,
                detail: detail@,
            },
            MergeError::ToolNotStarted { tool, detail } => MergeErrorView::ToolNotStarted {
                tool: *tool,
                detail: detail@,
            },
            MergeError::ToolFailed { tool, error_output } => MergeErrorView::ToolFailed {
                tool: *tool,
                error_output: error_output@,
            },
            MergeError::ArtifactRejected { detail } => MergeErrorView::ArtifactRejected {
                detail: detail@,
            },
            MergeError::UnsupportedPlatform { platform } => MergeErrorView::UnsupportedPlatform {
                platform: *platform,
            },
        }
    }
}

impl MergeErrorView {
    pub open spec fn kind(self) -> ErrorKind {
        match self {
            MergeErrorView::MissingTool { .. } => ErrorKind::Configuration,
            MergeErrorView::EmptyPayload { .. } => ErrorKind::Configuration,
            MergeErrorView::ScratchWrite { .. } => ErrorKind::Io,
            MergeErrorView::ToolNotStarted { .. } => ErrorKind::Toolchain,
            MergeErrorView::ToolFailed { .. } => ErrorKind::Toolchain,
            MergeErrorView::ArtifactRejected { .. } => ErrorKind::Toolchain,
            MergeErrorView::UnsupportedPlatform { .. } => ErrorKind::Detection,
        }
    }

    /// The message shown to the user. It names the tool or file at fault, and for a
    /// missing tool says how to install it.
    pub open spec fn message(self) -> Seq<char> {
        match self {
            MergeErrorView::MissingTool { tool } => tool.description_text() + " not found: "@
                + tool.program_text() + "\n"@ + tool.install_hint_text(),
            MergeErrorView::EmptyPayload { role } => match role {
                PayloadRole::Base => "base binary is empty"@,
                PayloadRole::Overload => "overload binary is empty"@,
            },
            MergeErrorView::ScratchWrite { file, detail } => "Failed to write "@
                + file.description_text() + ": "@ + detail,
            MergeErrorView::ToolNotStarted { tool, detail } => "Failed to execute "@
                + tool.program_text() + ": "@ + detail,
            MergeErrorView::ToolFailed { tool, error_output } => tool.program_text()
                + " failed: "@ + error_output,
            MergeErrorView::ArtifactRejected { detail } => "merged.exe was not produced: "@
                + detail,
            MergeErrorView::UnsupportedPlatform { platform } => "unsupported platform: "@
                + platform.name_text(),
        }
    }
}

impl MergeError {
    pub fn kind(&self) -> (kind: ErrorKind)
        ensures
            kind == self@.kind(),
    {
        match self {
            MergeError::MissingTool { .. } => ErrorKind::Configuration,
            MergeError::EmptyPayload { .. } => ErrorKind::Configuration,
            MergeError::ScratchWrite { .. } => ErrorKind::Io,
            MergeError::ToolNotStarted { .. } => ErrorKind::Toolchain,
            MergeError::ToolFailed { .. } => ErrorKind::Toolchain,
            MergeError::ArtifactRejected { .. } => ErrorKind::Toolchain,
            MergeError::UnsupportedPlatform { .. } => ErrorKind::Detection,
        }
    }

    pub fn message(&self) -> (text: String)
        ensures
            text@ == self@.message(),
    {
        match self {
            MergeError::MissingTool { tool } => {
                let mut text = String::from_str(tool.description());
                text.append(" not found: ");
                text.append(tool.program());
                text.append("\n");
                text.append(tool.install_hint());
                text
            },
            MergeError::EmptyPayload { role } => match role {
                PayloadRole::Base => String::from_str("base binary is empty"),
                PayloadRole::Overload => String::from_str("overload binary is empty"),
            },
            MergeError::ScratchWrite { file, detail } => {
                let mut text = String::from_str("Failed to write ");
                text.append(file.description());
                text.append(": ");
                text.append(detail.as_str());
                text
            },
            MergeError::ToolNotStarted { tool, detail } => {
                let mut text = String::from_str("Failed to execute ");
                text.append(tool.program());
                text.append(": ");
                text.append(detail.as_str());
                text
            },
            MergeError::ToolFailed { tool, error_output } => {
                let mut text = String::from_str(tool.program());
                text.append(" failed: ");
                text.append(error_output.as_str());
                text
            },
            MergeError::ArtifactRejected { detail } => {
                let mut text = String::from_str("merged.exe was not produced: ");
                text.append(detail.as_str());
                text
            },
            MergeError::UnsupportedPlatform { platform } => {
                let mut text = String::from_str("unsupported platform: ");
                text.append(platform.name());
                text
            },
        }
    }
}

} // verus!
