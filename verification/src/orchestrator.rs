//! The build as a state machine. The machine decides; a driver acts: it
//! performs the action that the current state asks for, reports what
//! happened as an event, and goes on until the machine asks it to stop.
//! An event that does not answer the action asked for changes nothing.

use crate::artifact::{
    all_module_files, regular_files, resolve_artifact, resolved, GlobEntry, GlobEntryView,
};
use crate::config::{Args, ArgsView};
use crate::error::{BuildError, BuildErrorView};
use crate::invocation::{invocation, Invocation, InvocationView};
use crate::layout::{
    artifact_pattern, artifact_pattern_of, descriptor_in, descriptor_path, output_root,
    output_root_of, sources_pattern, sources_pattern_of,
};
use crate::text::{contains, decode_lossy, occurs_in, utf8_lossy};
use crate::views::result_view;
use vstd::prelude::*;

verus! {

/// What a build yields.
#[derive(Debug, PartialEq, Eq)]
pub struct BuildOutput {
    /// The compiled module.
    pub artifact: String,
    /// The module's own files: a change to any of them calls for a rebuild.
    pub watched: Vec<String>,
}

/// [`BuildOutput`] as contracts speak of it, its text as sequences of characters.
pub struct BuildOutputView {
    pub artifact: Seq<char>,
    pub watched: Seq<Seq<char>>,
}

impl View for BuildOutput {
    type V = BuildOutputView;

    open spec fn view(&self) -> BuildOutputView {
        BuildOutputView { artifact: self.artifact@, watched: self.watched.deep_view() }
    }
}

impl DeepView for BuildOutput {
    type V = BuildOutputView;

    open spec fn deep_view(&self) -> BuildOutputView {
        self@
    }
}

/// Where a build stands.
#[derive(Debug, PartialEq, Eq)]
pub enum BuildState {
    /// Waiting to learn whether the build descriptor is there.
    CheckingDescriptor,
    /// Waiting for the build descriptor's contents.
    ReadingDescriptor,
    /// Waiting for the build lock.
    AcquiringLock,
    /// The lock was found poisoned; waiting for it to be reset.
    ResettingLock,
    /// Holding the lock; waiting for the compiler.
    Building,
    /// Holding the lock, the compiler done; waiting for the lock's release.
    /// `failure` is why the compiler's run counts as failed, if it does.
    Releasing { failure: Option<BuildError> },
    /// Waiting for the matches of the artifact's pattern.
    FindingArtifact,
    /// The artifact found; waiting for the list of the module's files.
    ListingSources { artifact: String },
    /// Done.
    Finished { outcome: Result<BuildOutput, BuildError> },
}

/// [`BuildState`] as contracts speak of it, its text as sequences of characters.
pub enum BuildStateView {
    CheckingDescriptor,
    ReadingDescriptor,
    AcquiringLock,
    ResettingLock,
    Building,
    Releasing { failure: Option<BuildErrorView> },
    FindingArtifact,
    ListingSources { artifact: Seq<char> },
    Finished { outcome: Result<BuildOutputView, BuildErrorView> },
}

impl View for BuildState {
    type V = BuildStateView;

    open spec fn view(&self) -> BuildStateView {
        match self {
            BuildState::CheckingDescriptor => BuildStateView::CheckingDescriptor,
            BuildState::ReadingDescriptor => BuildStateView::ReadingDescriptor,
            BuildState::AcquiringLock => BuildStateView::AcquiringLock,
            BuildState::ResettingLock => BuildStateView::ResettingLock,
            BuildState::Building => BuildStateView::Building,
            BuildState::Releasing { failure } => BuildStateView::Releasing {
                failure: failure.deep_view(),
            },
            BuildState::FindingArtifact => BuildStateView::FindingArtifact,
            BuildState::ListingSources { artifact } => BuildStateView::ListingSources {
                artifact: artifact@,
            },
            BuildState::Finished { outcome } => BuildStateView::Finished {
                outcome: result_view(*outcome),
            },
        }
    }
}

/// What the driver observed.
#[derive(Debug, PartialEq, Eq)]
pub enum BuildEvent {
    /// Whether the build descriptor's path is a regular file.
    DescriptorChecked { is_file: bool },
    /// The build descriptor's contents.
    DescriptorRead { contents: String },
    /// The build descriptor could not be read.
    DescriptorUnreadable { reason: String },
    /// The lock is held now.
    LockAcquired,
    /// The lock was left poisoned by a holder that panicked; it is not held.
    LockPoisoned,
    /// The lock's poison is cleared.
    LockReset,
    /// The compiler ran to its end.
    ToolchainExited { success: bool, stderr: Vec<u8> },
    /// The compiler could not be started.
    ToolchainNotStarted { reason: String },
    /// The lock is free again.
    LockReleased,
    /// What the artifact's pattern matched, in the order found.
    ArtifactsMatched { entries: Vec<GlobEntry> },
    /// What the pattern for the module's files matched, in the order found.
    SourcesMatched { entries: Vec<GlobEntry> },
    /// The module's files could not be listed.
    SourcesUnlisted { reason: String },
}

/// [`BuildEvent`] as contracts speak of it, its text as sequences of characters.
pub enum BuildEventView {
    DescriptorChecked { is_file: bool },
    DescriptorRead { contents: Seq<char> },
    DescriptorUnreadable { reason: Seq<char> },
    LockAcquired,
    LockPoisoned,
    LockReset,
    ToolchainExited { success: bool, stderr: Seq<u8> },
    ToolchainNotStarted { reason: Seq<char> },
    LockReleased,
    ArtifactsMatched { entries: Seq<GlobEntryView> },
    SourcesMatched { entries: Seq<GlobEntryView> },
    SourcesUnlisted { reason: Seq<char> },
}

impl View for BuildEvent {
    type V = BuildEventView;

    open spec fn view(&self) -> BuildEventView {
        match self {
            BuildEvent::DescriptorChecked { is_file } => BuildEventView::DescriptorChecked {
                is_file: *is_file,
            },
            BuildEvent::DescriptorRead { contents } => BuildEventView::DescriptorRead {
                contents: contents@,
            },
            BuildEvent::DescriptorUnreadable { reason } => BuildEventView::DescriptorUnreadable {
                reason: reason@,
            },
            BuildEvent::LockAcquired => BuildEventView::LockAcquired,
            BuildEvent::LockPoisoned => BuildEventView::LockPoisoned,
            BuildEvent::LockReset => BuildEventView::LockReset,
            BuildEvent::ToolchainExited { success, stderr } => BuildEventView::ToolchainExited {
                success: *success,
                stderr: stderr@,
            },
            BuildEvent::ToolchainNotStarted { reason } => BuildEventView::ToolchainNotStarted {
                reason: reason@,
            },
            BuildEvent::LockReleased => BuildEventView::LockReleased,
            BuildEvent::ArtifactsMatched { entries } => BuildEventView::ArtifactsMatched {
                entries: entries.deep_view(),
            },
            BuildEvent::SourcesMatched { entries } => BuildEventView::SourcesMatched {
                entries: entries.deep_view(),
            },
            BuildEvent::SourcesUnlisted { reason } => BuildEventView::SourcesUnlisted {
                reason: reason@,
            },
        }
    }
}

/// What the driver is to do next.
#[derive(Debug, PartialEq, Eq)]
pub enum BuildAction {
    /// Tell whether `path` is a regular file.
    CheckDescriptor { path: String },
    /// Read the file at `path` as text.
    ReadDescriptor { path: String },
    /// Take the build lock, waiting for it if need be.
    AcquireLock,
    /// Clear the lock's poison.
    ResetLock,
    /// Run the compiler and wait for it.
    RunToolchain { invocation: Invocation },
    /// Give the build lock back.
    ReleaseLock,
    /// Match `pattern` against the file system, to find the artifact.
    MatchArtifacts { pattern: String },
    /// Match `pattern` against the file system, to list the module's files.
    /// A failure to do so costs the list, not the build.
    MatchSources { pattern: String },
    /// Nothing: the build is finished.
    Stop,
}

/// [`BuildAction`] as contracts speak of it, its text as sequences of characters.
pub enum BuildActionView {
    CheckDescriptor { path: Seq<char> },
    ReadDescriptor { path: Seq<char> },
    AcquireLock,
    ResetLock,
    RunToolchain { invocation: InvocationView },
    ReleaseLock,
    MatchArtifacts { pattern: Seq<char> },
    MatchSources { pattern: Seq<char> },
    Stop,
}

impl View for BuildAction {
    type V = BuildActionView;

    open spec fn view(&self) -> BuildActionView {
        match self {
            BuildAction::CheckDescriptor { path } => BuildActionView::CheckDescriptor {
                path: path@,
            },
            BuildAction::ReadDescriptor { path } => BuildActionView::ReadDescriptor { path: path@ },
            BuildAction::AcquireLock => BuildActionView::AcquireLock,
            BuildAction::ResetLock => BuildActionView::ResetLock,
            BuildAction::RunToolchain { invocation } => BuildActionView::RunToolchain {
                invocation: invocation@,
            },
            BuildAction::ReleaseLock => BuildActionView::ReleaseLock,
            BuildAction::MatchArtifacts { pattern } => BuildActionView::MatchArtifacts {
                pattern: pattern@,
            },
            BuildAction::MatchSources { pattern } => BuildActionView::MatchSources {
                pattern: pattern@,
            },
            BuildAction::Stop => BuildActionView::Stop,
        }
    }
}

/// The line that marks a build descriptor as that of a workspace.
pub open spec fn workspace_marker() -> Seq<char> {
    "[workspace]\n"@
}

/// The state in which every build begins.
pub open spec fn initial() -> BuildStateView {
    BuildStateView::CheckingDescriptor
}

/// What the driver is asked to do in a state.
pub open spec fn action(args: ArgsView, s: BuildStateView) -> BuildActionView {
    match s {
        BuildStateView::CheckingDescriptor => BuildActionView::CheckDescriptor {
            path: descriptor_path(args.module_dir),
        },
        BuildStateView::ReadingDescriptor => BuildActionView::ReadDescriptor {
            path: descriptor_path(args.module_dir),
        },
        BuildStateView::AcquiringLock => BuildActionView::AcquireLock,
        BuildStateView::ResettingLock => BuildActionView::ResetLock,
        BuildStateView::Building => BuildActionView::RunToolchain { invocation: invocation(args) },
        BuildStateView::Releasing { .. } => BuildActionView::ReleaseLock,
        BuildStateView::FindingArtifact => BuildActionView::MatchArtifacts {
            pattern: artifact_pattern(args.module_dir, args.env_vars, args.release),
        },
        BuildStateView::ListingSources { .. } => BuildActionView::MatchSources {
            pattern: sources_pattern(args.module_dir),
        },
        BuildStateView::Finished { .. } => BuildActionView::Stop,
    }
}

/// Why a run of the compiler that came to its end counts as failed, if it
/// does: it did not report success.
pub open spec fn exit_failure(module_dir: Seq<char>, success: bool, stderr_text: Seq<char>) -> Option<
    BuildErrorView,
> {
    if success {
        None
    } else {
        Some(BuildErrorView::BuildFailed { module_dir, stderr: stderr_text })
    }
}

/// Why the compiler's run counts as failed, if it does: it did not start, or
/// it did not report success.
pub open spec fn toolchain_failure(args: ArgsView, e: BuildEventView) -> Option<BuildErrorView> {
    match e {
        BuildEventView::ToolchainExited { success, stderr } => exit_failure(
            args.module_dir,
            success,
            utf8_lossy(stderr),
        ),
        BuildEventView::ToolchainNotStarted { reason } => Some(
            BuildErrorView::SpawnFailed { module_dir: args.module_dir, reason },
        ),
        _ => None,
    }
}

/// The state that follows `s` when the driver reports `e`.
pub open spec fn next(args: ArgsView, s: BuildStateView, e: BuildEventView) -> BuildStateView {
    match (s, e) {
        (BuildStateView::CheckingDescriptor, BuildEventView::DescriptorChecked { is_file }) =>
            if is_file {
            BuildStateView::ReadingDescriptor
        } else {
            BuildStateView::Finished {
                outcome: Err(BuildErrorView::MissingDescriptor { module_dir: args.module_dir }),
            }
        },
        (BuildStateView::ReadingDescriptor, BuildEventView::DescriptorRead { contents }) =>
            if occurs_in(workspace_marker(), contents) {
            BuildStateView::Finished { outcome: Err(BuildErrorView::Workspace) }
        } else {
            BuildStateView::AcquiringLock
        },
        (BuildStateView::ReadingDescriptor, BuildEventView::DescriptorUnreadable { reason }) =>
            BuildStateView::Finished {
            outcome: Err(BuildErrorView::UnreadableDescriptor { reason }),
        },
        (BuildStateView::AcquiringLock, BuildEventView::LockAcquired) => BuildStateView::Building,
        (BuildStateView::AcquiringLock, BuildEventView::LockPoisoned) =>
            BuildStateView::ResettingLock,
        (BuildStateView::ResettingLock, BuildEventView::LockReset) => BuildStateView::AcquiringLock,
        (BuildStateView::Building, BuildEventView::ToolchainExited { .. }) =>
            BuildStateView::Releasing { failure: toolchain_failure(args, e) },
        (BuildStateView::Building, BuildEventView::ToolchainNotStarted { .. }) =>
            BuildStateView::Releasing { failure: toolchain_failure(args, e) },
        (BuildStateView::Releasing { failure }, BuildEventView::LockReleased) => match failure {
            Some(error) => BuildStateView::Finished { outcome: Err(error) },
            None => BuildStateView::FindingArtifact,
        },
        (BuildStateView::FindingArtifact, BuildEventView::ArtifactsMatched { entries }) =>
            match resolved(
            artifact_pattern(args.module_dir, args.env_vars, args.release),
            output_root(args.module_dir, args.env_vars),
            entries,
        ) {
            Ok(artifact) => BuildStateView::ListingSources { artifact },
            Err(error) => BuildStateView::Finished { outcome: Err(error) },
        },
        (BuildStateView::ListingSources { artifact }, BuildEventView::SourcesMatched { entries }) =>
            BuildStateView::Finished {
            outcome: Ok(BuildOutputView { artifact, watched: regular_files(entries) }),
        },
        (BuildStateView::ListingSources { artifact }, BuildEventView::SourcesUnlisted { .. }) =>
            BuildStateView::Finished {
            outcome: Ok(BuildOutputView { artifact, watched: Seq::empty() }),
        },
        _ => s,
    }
}

/// Classifies how the compiler's run ended, from whether it reported
/// success and what it wrote to its error stream.
pub fn classify_exit(module_dir: &str, success: bool, stderr_text: String) -> (failure: Option<
    BuildError,
>)
    ensures
        failure.deep_view() == exit_failure(module_dir@, success, stderr_text@),
{
    if success {
        None
    } else {
        Some(BuildError::BuildFailed { module_dir: module_dir.to_owned(), stderr: stderr_text })
    }
}

impl BuildState {
    /// The state in which every build begins.
    pub fn start() -> (s: BuildState)
        ensures
            s@ == initial(),
    {
        BuildState::CheckingDescriptor
    }

    /// What the driver is to do now.
    pub fn action(&self, args: &Args) -> (a: BuildAction)
        ensures
            a@ == action(args@, self@),
    {
        match self {
            BuildState::CheckingDescriptor => BuildAction::CheckDescriptor {
                path: descriptor_in(args.module_dir.as_str()),
            },
            BuildState::ReadingDescriptor => BuildAction::ReadDescriptor {
                path: descriptor_in(args.module_dir.as_str()),
            },
            BuildState::AcquiringLock => BuildAction::AcquireLock,
            BuildState::ResettingLock => BuildAction::ResetLock,
            BuildState::Building => BuildAction::RunToolchain {
                invocation: Invocation::for_args(args),
            },
            BuildState::Releasing { .. } => BuildAction::ReleaseLock,
            BuildState::FindingArtifact => BuildAction::MatchArtifacts {
                pattern: artifact_pattern_of(
                    args.module_dir.as_str(),
                    &args.env_vars,
                    args.release,
                ),
            },
            BuildState::ListingSources { .. } => BuildAction::MatchSources {
                pattern: sources_pattern_of(args.module_dir.as_str()),
            },
            BuildState::Finished { .. } => BuildAction::Stop,
        }
    }

    /// Takes in what the driver observed.
    pub fn advance(self, args: &Args, event: BuildEvent) -> (s: BuildState)
        ensures
            s@ == next(args@, self@, event@),
    {
        match (self, event) {
            (BuildState::CheckingDescriptor, BuildEvent::DescriptorChecked { is_file }) => {
                if is_file {
                    BuildState::ReadingDescriptor
                } else {
                    BuildState::Finished {
                        outcome: Err(
                            BuildError::MissingDescriptor { module_dir: args.module_dir.clone() },
                        ),
                    }
                }
            },
            (BuildState::ReadingDescriptor, BuildEvent::DescriptorRead { contents }) => {
                if contains(contents.as_str(), "[workspace]\n") {
                    BuildState::Finished { outcome: Err(BuildError::Workspace) }
                } else {
                    BuildState::AcquiringLock
                }
            },
            (BuildState::ReadingDescriptor, BuildEvent::DescriptorUnreadable { reason }) => {
                BuildState::Finished { outcome: Err(BuildError::UnreadableDescriptor { reason }) }
            },
            (BuildState::AcquiringLock, BuildEvent::LockAcquired) => BuildState::Building,
            (BuildState::AcquiringLock, BuildEvent::LockPoisoned) => BuildState::ResettingLock,
            (BuildState::ResettingLock, BuildEvent::LockReset) => BuildState::AcquiringLock,
            (BuildState::Building, BuildEvent::ToolchainExited { success, stderr }) => {
                let text = if success {
                    String::new()
                } else {
                    decode_lossy(&stderr)
                };
                BuildState::Releasing {
                    failure: classify_exit(args.module_dir.as_str(), success, text),
                }
            },
            (BuildState::Building, BuildEvent::ToolchainNotStarted { reason }) => {
                BuildState::Releasing {
                    failure: Some(
                        BuildError::SpawnFailed { module_dir: args.module_dir.clone(), reason },
                    ),
                }
            },
            (BuildState::Releasing { failure }, BuildEvent::LockReleased) => {
                match failure {
                    Some(error) => BuildState::Finished { outcome: Err(error) },
                    None => BuildState::FindingArtifact,
                }
            },
            (BuildState::FindingArtifact, BuildEvent::ArtifactsMatched { entries }) => {
                let pattern = artifact_pattern_of(
                    args.module_dir.as_str(),
                    &args.env_vars,
                    args.release,
                );
                let root = output_root_of(args.module_dir.as_str(), &args.env_vars);
                match resolve_artifact(pattern.as_str(), root.as_str(), &entries) {
                    Ok(artifact) => BuildState::ListingSources { artifact },
                    Err(error) => BuildState::Finished { outcome: Err(error) },
                }
            },
            (BuildState::ListingSources { artifact }, BuildEvent::SourcesMatched { entries }) => {
                let watched = all_module_files(&entries);
                BuildState::Finished { outcome: Ok(BuildOutput { artifact, watched }) }
            },
            (BuildState::ListingSources { artifact }, BuildEvent::SourcesUnlisted { .. }) => {
                let watched: Vec<String> = Vec::new();
                proof {
                    assert(watched.deep_view() =~= Seq::empty());
                }
                BuildState::Finished { outcome: Ok(BuildOutput { artifact, watched }) }
            },
            (state, _) => state,
        }
    }

    /// The build's outcome, once it is finished.
    pub fn outcome(self) -> (res: Option<Result<BuildOutput, BuildError>>)
        ensures
            res is Some <==> self@ is Finished,
            res matches Some(outcome) ==> self@ == (BuildStateView::Finished {
                outcome: result_view(outcome),
            }),
    {
        match self {
            BuildState::Finished { outcome } => Some(outcome),
            _ => None,
        }
    }
}

/// One turn of a build: takes in what the driver observed in `state` and
/// tells the state that follows and what the driver is to do in it.
pub fn do_build_wasm(args: &Args, state: BuildState, event: BuildEvent) -> (turn: (
    BuildState,
    BuildAction,
))
    ensures
        turn.0@ == next(args@, state@, event@),
        turn.1@ == action(args@, turn.0@),
{
    let state = state.advance(args, event);
    let todo = state.action(args);
    (state, todo)
}

} // verus!
