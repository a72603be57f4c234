//! Why a build did not yield an artifact.

use crate::text::{debug_quoted, quote_text, reindent, reindented};
use vstd::prelude::*;

verus! {

/// The ways a build ends without an artifact.
#[derive(Debug, PartialEq, Eq)]
pub enum BuildError {
    /// The module's directory holds no build descriptor.
    MissingDescriptor { module_dir: String },
    /// The build descriptor is there and could not be read.
    UnreadableDescriptor { reason: String },
    /// The build descriptor declares a workspace.
    Workspace,
    /// The compiler could not be started.
    SpawnFailed { module_dir: String, reason: String },
    /// The compiler ran and reported failure; `stderr` is what it wrote to
    /// its error stream.
    BuildFailed { module_dir: String, stderr: String },
    /// Looking for the artifact failed on the first thing looked at.
    ArtifactUnreadable { pattern: String, reason: String },
    /// No file matches the artifact's pattern.
    NoArtifact { pattern: String },
    /// More than one file matches the artifact's pattern.
    MultipleArtifacts { pattern: String, output_root: String },
}

/// [`BuildError`] as contracts speak of it, its text as sequences of characters.
pub enum BuildErrorView {
    MissingDescriptor { module_dir: Seq<char> },
    UnreadableDescriptor { reason: Seq<char> },
    Workspace,
    SpawnFailed { module_dir: Seq<char>, reason: Seq<char> },
    BuildFailed { module_dir: Seq<char>, stderr: Seq<char> },
    ArtifactUnreadable { pattern: Seq<char>, reason: Seq<char> },
    NoArtifact { pattern: Seq<char> },
    MultipleArtifacts { pattern: Seq<char>, output_root: Seq<char> },
}

/// The stage of a build that an error belongs to.
#[derive(Clone, Copy, Debug, PartialEq, Eq, Structural)]
pub enum ErrorKind {
    /// The module's directory does not hold a buildable module.
    Configuration,
    /// The compiler did not start.
    Spawn,
    /// The compiler failed.
    Execution,
    /// The artifact could not be told.
    Resolution,
}

impl View for BuildError {
    type V = BuildErrorView;

    open spec fn view(&self) -> BuildErrorView {
        match self {
            BuildError::MissingDescriptor { module_dir } => BuildErrorView::MissingDescriptor {
                module_dir: module_dir@,
            },
            BuildError::UnreadableDescriptor { reason } => BuildErrorView::UnreadableDescriptor {
                reason: reason@,
            },
            BuildError::Workspace => BuildErrorView::Workspace,
            BuildError::SpawnFailed { module_dir, reason } => BuildErrorView::SpawnFailed {
                module_dir: module_dir@,
                reason: reason@,
            },
            BuildError::BuildFailed { module_dir, stderr } => BuildErrorView::BuildFailed {
                module_dir: module_dir@,
                stderr: stderr@,
            },
            BuildError::ArtifactUnreadable { pattern, reason } => BuildErrorView::ArtifactUnreadable {
                pattern: pattern@,
                reason: reason@,
            },
            BuildError::NoArtifact { pattern } => BuildErrorView::NoArtifact { pattern: pattern@ },
            BuildError::MultipleArtifacts { pattern, output_root } =>
                BuildErrorView::MultipleArtifacts {
                pattern: pattern@,
                output_root: output_root@,
            },
        }
    }
}

impl DeepView for BuildError {
    type V = BuildErrorView;

    open spec fn deep_view(&self) -> BuildErrorView {
        self@
    }
}

/// The text for a search that failed, from the pattern as it is quoted for
/// display and the reason.
pub open spec fn unreadable_text(quoted: Seq<char>, reason: Seq<char>) -> Seq<char> {
    "failed to find output file matching `"@ + quoted + "`: "@ + reason
        + " - this is probably a bug"@
}

/// Renders the message for a search that failed; `quoted` is the pattern as
/// it is quoted for display.
pub fn unreadable_message(quoted: &str, reason: &str) -> (msg: String)
    ensures
        msg@ == unreadable_text(quoted@, reason@),
{
    let mut msg = "failed to find output file matching `".to_owned();
    msg.append(quoted);
    msg.append("`: ");
    msg.append(reason);
    msg.append(" - this is probably a bug");
    msg
}

impl BuildErrorView {
    pub open spec fn kind(self) -> ErrorKind {
        match self {
            BuildErrorView::MissingDescriptor { .. } => ErrorKind::Configuration,
            BuildErrorView::UnreadableDescriptor { .. } => ErrorKind::Configuration,
            BuildErrorView::Workspace => ErrorKind::Configuration,
            BuildErrorView::SpawnFailed { .. } => ErrorKind::Spawn,
            BuildErrorView::BuildFailed { .. } => ErrorKind::Execution,
            BuildErrorView::ArtifactUnreadable { .. } => ErrorKind::Resolution,
            BuildErrorView::NoArtifact { .. } => ErrorKind::Resolution,
            BuildErrorView::MultipleArtifacts { .. } => ErrorKind::Resolution,
        }
    }

    /// The text shown to the user. The compiler's error output goes below
    /// the heading, each of its lines indented by a tab.
    pub open spec fn message(self) -> Seq<char> {
        match self {
            BuildErrorView::MissingDescriptor { module_dir } => "target directory `"@ + module_dir
                + "` does not contain a `Cargo.toml` file"@,
            BuildErrorView::UnreadableDescriptor { reason } => "failed to read target `Cargo.toml`: "@
                + reason,
            BuildErrorView::Workspace => "provided directory points to a workspace, not a module"@,
            BuildErrorView::SpawnFailed { module_dir, reason } => "failed to build module `"@
                + module_dir + "`: "@ + reason,
            BuildErrorView::BuildFailed { module_dir, stderr } => "failed to build module `"@
                + module_dir + "`: \n"@ + reindented(stderr),
            BuildErrorView::ArtifactUnreadable { pattern, reason } => unreadable_text(
                debug_quoted(pattern),
                reason,
            ),
            BuildErrorView::NoArtifact { pattern } => "failed to find output file matching `"@
                + pattern + "` - this is probably a bug"@,
            BuildErrorView::MultipleArtifacts { pattern, output_root } =>
                "multiple output files matching `"@ + pattern
                    + "` were found - this may be because you recently changed the name of your module; try deleting the folder `"@
                    + output_root + "` and rebuilding"@,
        }
    }
}

impl BuildError {
    /// The stage of the build that failed.
    pub fn kind(&self) -> (kind: ErrorKind)
        ensures
            kind == self@.kind(),
    {
        match self {
            BuildError::MissingDescriptor { .. } => ErrorKind::Configuration,
            BuildError::UnreadableDescriptor { .. } => ErrorKind::Configuration,
            BuildError::Workspace => ErrorKind::Configuration,
            BuildError::SpawnFailed { .. } => ErrorKind::Spawn,
            BuildError::BuildFailed { .. } => ErrorKind::Execution,
            BuildError::ArtifactUnreadable { .. } => ErrorKind::Resolution,
            BuildError::NoArtifact { .. } => ErrorKind::Resolution,
            BuildError::MultipleArtifacts { .. } => ErrorKind::Resolution,
        }
    }

    /// Renders the error for display.
    pub fn message(&self) -> (msg: String)
        ensures
            msg@ == self@.message(),
    {
        match self {
            BuildError::MissingDescriptor { module_dir } => {
                let mut msg = "target directory `".to_owned();
                msg.append(module_dir.as_str());
                msg.append("` does not contain a `Cargo.toml` file");
                msg
            },
            BuildError::UnreadableDescriptor { reason } => {
                let mut msg = "failed to read target `Cargo.toml`: ".to_owned();
                msg.append(reason.as_str());
                msg
            },
            BuildError::Workspace => {
                "provided directory points to a workspace, not a module".to_owned()
            },
            BuildError::SpawnFailed { module_dir, reason } => {
                let mut msg = "failed to build module `".to_owned();
                msg.append(module_dir.as_str());
                msg.append("`: ");
                msg.append(reason.as_str());
                msg
            },
            BuildError::BuildFailed { module_dir, stderr } => {
                let mut msg = "failed to build module `".to_owned();
                msg.append(module_dir.as_str());
                msg.append("`: \n");
                let indented = reindent(stderr.as_str());
                msg.append(indented.as_str());
                msg
            },
            BuildError::ArtifactUnreadable { pattern, reason } => {
                let quoted = quote_text(pattern.as_str());
                unreadable_message(quoted.as_str(), reason.as_str())
            },
            BuildError::NoArtifact { pattern } => {
                let mut msg = "failed to find output file matching `".to_owned();
                msg.append(pattern.as_str());
                msg.append("` - this is probably a bug");
                msg
            },
            BuildError::MultipleArtifacts { pattern, output_root } => {
                let mut msg = "multiple output files matching `".to_owned();
                msg.append(pattern.as_str());
                msg.append(
                    "` were found - this may be because you recently changed the name of your module; try deleting the folder `",
                );
                msg.append(output_root.as_str());
                msg.append("` and rebuilding");
                msg
            },
        }
    }
}

} // verus!
