use include_wasm_rs::artifact::GlobEntry;
use include_wasm_rs::config::Args;
use include_wasm_rs::error::{BuildError, ErrorKind};
use include_wasm_rs::features::TargetFeatures;
use include_wasm_rs::invocation::Invocation;
use include_wasm_rs::orchestrator::{
    classify_exit, do_build_wasm, BuildAction, BuildEvent, BuildOutput, BuildState,
};

fn args() -> Args {
    Args {
        module_dir: "/work/m".to_string(),
        features: TargetFeatures { atomics: false, bulk_memory: true, mutable_globals: false },
        env_vars: vec![("LEVEL".to_string(), "12".to_string())],
        release: true,
    }
}

const PATTERN: &str = "/work/m/target/_LEVEL_12/wasm32-unknown-unknown/release/*.wasm";
const ROOT: &str = "/work/m/target/_LEVEL_12/wasm32-unknown-unknown/";
const ARTIFACT: &str = "/work/m/target/_LEVEL_12/wasm32-unknown-unknown/release/m.wasm";

fn run(args: &Args, events: Vec<BuildEvent>) -> (BuildState, Vec<BuildAction>) {
    let mut state = BuildState::start();
    let mut asked = vec![state.action(args)];
    for event in events {
        let (next, todo) = do_build_wasm(args, state, event);
        state = next;
        asked.push(todo);
    }
    (state, asked)
}

fn descriptor() -> BuildEvent {
    BuildEvent::DescriptorRead { contents: "[package]\nname = \"m\"\n".to_string() }
}

fn exited(success: bool, stderr: &[u8]) -> BuildEvent {
    BuildEvent::ToolchainExited { success, stderr: stderr.to_vec() }
}

fn file(path: &str) -> GlobEntry {
    GlobEntry::Found { path: path.to_string(), is_file: true }
}

fn up_to_building() -> Vec<BuildEvent> {
    vec![BuildEvent::DescriptorChecked { is_file: true }, descriptor(), BuildEvent::LockAcquired]
}

fn failed(error: BuildError) -> BuildState {
    BuildState::Finished { outcome: Err(error) }
}

fn builds(asked: &[BuildAction]) -> usize {
    asked.iter().filter(|a| matches!(a, BuildAction::RunToolchain { .. })).count()
}

#[test]
fn build_begins_by_checking_the_descriptor() {
    let state = BuildState::start();
    assert_eq!(state, BuildState::CheckingDescriptor);
    assert_eq!(
        state.action(&args()),
        BuildAction::CheckDescriptor { path: "/work/m/Cargo.toml".to_string() }
    );
}

#[test]
fn whole_build_yields_artifact_and_watch_list() {
    let a = args();
    let mut events = up_to_building();
    events.push(exited(true, b"   Compiling m v0.1.0\n"));
    events.push(BuildEvent::LockReleased);
    events.push(BuildEvent::ArtifactsMatched { entries: vec![file(ARTIFACT)] });
    events.push(BuildEvent::SourcesMatched {
        entries: vec![
            GlobEntry::Found { path: "/work/m/src".to_string(), is_file: false },
            file("/work/m/src/lib.rs"),
            file("/work/m/Cargo.toml"),
        ],
    });
    let (state, asked) = run(&a, events);
    assert_eq!(
        asked,
        vec![
            BuildAction::CheckDescriptor { path: "/work/m/Cargo.toml".to_string() },
            BuildAction::ReadDescriptor { path: "/work/m/Cargo.toml".to_string() },
            BuildAction::AcquireLock,
            BuildAction::RunToolchain { invocation: Invocation::for_args(&a) },
            BuildAction::ReleaseLock,
            BuildAction::MatchArtifacts { pattern: PATTERN.to_string() },
            BuildAction::MatchSources { pattern: "/work/m/**/*".to_string() },
            BuildAction::Stop,
        ]
    );
    let expected = BuildOutput {
        artifact: ARTIFACT.to_string(),
        watched: vec!["/work/m/src/lib.rs".to_string(), "/work/m/Cargo.toml".to_string()],
    };
    assert_eq!(state.outcome(), Some(Ok(expected)));
}

#[test]
fn missing_descriptor_fails_without_a_build() {
    let (state, asked) = run(&args(), vec![BuildEvent::DescriptorChecked { is_file: false }]);
    assert_eq!(asked[1], BuildAction::Stop);
    assert_eq!(builds(&asked), 0);
    let error = BuildError::MissingDescriptor { module_dir: "/work/m".to_string() };
    assert_eq!(error.kind(), ErrorKind::Configuration);
    assert_eq!(state, failed(error));
}

#[test]
fn missing_descriptor_stays_failed_whatever_follows() {
    let events = vec![
        BuildEvent::DescriptorChecked { is_file: false },
        descriptor(),
        BuildEvent::LockAcquired,
        exited(true, b""),
        BuildEvent::ArtifactsMatched { entries: vec![file(ARTIFACT)] },
    ];
    let (state, asked) = run(&args(), events);
    assert_eq!(builds(&asked), 0);
    assert!(asked[1..].iter().all(|a| *a == BuildAction::Stop));
    assert_eq!(state, failed(BuildError::MissingDescriptor { module_dir: "/work/m".to_string() }));
}

#[test]
fn workspace_descriptor_fails_without_a_build() {
    let events = vec![
        BuildEvent::DescriptorChecked { is_file: true },
        BuildEvent::DescriptorRead {
            contents: "[workspace]\nmembers = [\"a\", \"b\"]\n".to_string(),
        },
    ];
    let (state, asked) = run(&args(), events);
    assert_eq!(builds(&asked), 0);
    assert!(!asked.contains(&BuildAction::AcquireLock));
    assert_eq!(asked[2], BuildAction::Stop);
    assert_eq!(BuildError::Workspace.kind(), ErrorKind::Configuration);
    assert_eq!(state, failed(BuildError::Workspace));
}

#[test]
fn workspace_marker_must_end_its_line() {
    let events = vec![
        BuildEvent::DescriptorChecked { is_file: true },
        BuildEvent::DescriptorRead { contents: "[workspace] # none\n".to_string() },
    ];
    let (state, _) = run(&args(), events);
    assert_eq!(state, BuildState::AcquiringLock);
}

#[test]
fn unreadable_descriptor_fails_without_a_build() {
    let events = vec![
        BuildEvent::DescriptorChecked { is_file: true },
        BuildEvent::DescriptorUnreadable { reason: "stream did not contain valid UTF-8".to_string() },
    ];
    let (state, asked) = run(&args(), events);
    assert_eq!(builds(&asked), 0);
    assert_eq!(
        state,
        failed(BuildError::UnreadableDescriptor {
            reason: "stream did not contain valid UTF-8".to_string()
        })
    );
}

#[test]
fn poisoned_lock_is_reset_and_taken_again() {
    let events = vec![
        BuildEvent::DescriptorChecked { is_file: true },
        descriptor(),
        BuildEvent::LockPoisoned,
        BuildEvent::LockReset,
        BuildEvent::LockPoisoned,
        BuildEvent::LockReset,
        BuildEvent::LockAcquired,
    ];
    let (state, asked) = run(&args(), events);
    assert_eq!(
        asked[2..],
        [
            BuildAction::AcquireLock,
            BuildAction::ResetLock,
            BuildAction::AcquireLock,
            BuildAction::ResetLock,
            BuildAction::AcquireLock,
            BuildAction::RunToolchain { invocation: Invocation::for_args(&args()) },
        ]
    );
    assert_eq!(state, BuildState::Building);
}

#[test]
fn failed_compiler_releases_the_lock_then_fails() {
    let mut events = up_to_building();
    events.push(exited(false, b"error: could not compile `m`\nCaused by:\n  x\n"));
    let (state, asked) = run(&args(), events);
    assert_eq!(asked[4], BuildAction::ReleaseLock);
    assert!(matches!(state, BuildState::Releasing { failure: Some(_) }));
    let (state, todo) = do_build_wasm(&args(), state, BuildEvent::LockReleased);
    assert_eq!(todo, BuildAction::Stop);
    let error = BuildError::BuildFailed {
        module_dir: "/work/m".to_string(),
        stderr: "error: could not compile `m`\nCaused by:\n  x\n".to_string(),
    };
    assert_eq!(error.kind(), ErrorKind::Execution);
    assert_eq!(
        error.message(),
        "failed to build module `/work/m`: \nerror: could not compile `m`\n\tCaused by:\n\t  x\n\t"
    );
    assert_eq!(state, failed(error));
}

#[test]
fn compiler_output_that_is_not_text_is_decoded_with_replacements() {
    let mut events = up_to_building();
    events.push(exited(false, &[b'o', b'k', 0xff, b'!', 0xc3, 0xa9]));
    events.push(BuildEvent::LockReleased);
    let (state, _) = run(&args(), events);
    assert_eq!(
        state,
        failed(BuildError::BuildFailed {
            module_dir: "/work/m".to_string(),
            stderr: "ok\u{fffd}!é".to_string(),
        })
    );
}

#[test]
fn compiler_that_does_not_start_releases_the_lock_then_fails() {
    let mut events = up_to_building();
    events.push(BuildEvent::ToolchainNotStarted { reason: "program not found".to_string() });
    let (state, asked) = run(&args(), events);
    assert_eq!(asked[4], BuildAction::ReleaseLock);
    let (state, todo) = do_build_wasm(&args(), state, BuildEvent::LockReleased);
    assert_eq!(todo, BuildAction::Stop);
    let error = BuildError::SpawnFailed {
        module_dir: "/work/m".to_string(),
        reason: "program not found".to_string(),
    };
    assert_eq!(error.kind(), ErrorKind::Spawn);
    assert_eq!(state, failed(error));
}

#[test]
fn no_artifact_after_a_build_fails() {
    let mut events = up_to_building();
    events.push(exited(true, b""));
    events.push(BuildEvent::LockReleased);
    events.push(BuildEvent::ArtifactsMatched { entries: vec![] });
    let (state, asked) = run(&args(), events);
    assert_eq!(asked[6], BuildAction::Stop);
    assert_eq!(state, failed(BuildError::NoArtifact { pattern: PATTERN.to_string() }));
}

#[test]
fn several_artifacts_after_a_build_fail() {
    let mut events = up_to_building();
    events.push(exited(true, b""));
    events.push(BuildEvent::LockReleased);
    events.push(BuildEvent::ArtifactsMatched {
        entries: vec![file("/x/old_name.wasm"), file("/x/m.wasm")],
    });
    let (state, _) = run(&args(), events);
    assert_eq!(
        state,
        failed(BuildError::MultipleArtifacts {
            pattern: PATTERN.to_string(),
            output_root: ROOT.to_string(),
        })
    );
}

#[test]
fn failed_listing_leaves_the_watch_list_empty() {
    let mut events = up_to_building();
    events.push(exited(true, b""));
    events.push(BuildEvent::LockReleased);
    events.push(BuildEvent::ArtifactsMatched { entries: vec![file(ARTIFACT)] });
    events.push(BuildEvent::SourcesUnlisted {
        reason: "Pattern syntax error near position 3: invalid range pattern".to_string(),
    });
    let (state, _) = run(&args(), events);
    assert_eq!(
        state.outcome(),
        Some(Ok(BuildOutput { artifact: ARTIFACT.to_string(), watched: vec![] }))
    );
}

#[test]
fn unasked_events_change_nothing() {
    let a = args();
    let (state, todo) = do_build_wasm(&a, BuildState::start(), BuildEvent::LockAcquired);
    assert_eq!(state, BuildState::CheckingDescriptor);
    assert_eq!(todo, BuildAction::CheckDescriptor { path: "/work/m/Cargo.toml".to_string() });
    let (state, _) = do_build_wasm(&a, BuildState::AcquiringLock, exited(true, b""));
    assert_eq!(state, BuildState::AcquiringLock);
    let (state, _) = do_build_wasm(&a, BuildState::Building, BuildEvent::LockReleased);
    assert_eq!(state, BuildState::Building);
    let (state, _) = do_build_wasm(&a, BuildState::ResettingLock, BuildEvent::LockAcquired);
    assert_eq!(state, BuildState::ResettingLock);
    let (state, _) = do_build_wasm(
        &a,
        BuildState::FindingArtifact,
        BuildEvent::SourcesMatched { entries: vec![file(ARTIFACT)] },
    );
    assert_eq!(state, BuildState::FindingArtifact);
}

#[test]
fn compiler_is_asked_for_once() {
    let mut events = up_to_building();
    events.push(exited(true, b""));
    events.push(BuildEvent::LockAcquired);
    events.push(BuildEvent::LockReleased);
    events.push(BuildEvent::LockAcquired);
    events.push(BuildEvent::ArtifactsMatched { entries: vec![file(ARTIFACT)] });
    events.push(BuildEvent::LockAcquired);
    let (_, asked) = run(&args(), events);
    assert_eq!(builds(&asked), 1);
}

#[test]
fn outcome_is_there_only_at_the_end() {
    assert_eq!(BuildState::Building.outcome(), None);
    assert_eq!(BuildState::start().outcome(), None);
    assert_eq!(failed(BuildError::Workspace).outcome(), Some(Err(BuildError::Workspace)));
}

#[test]
fn exit_is_classified_by_its_status() {
    assert_eq!(classify_exit("/work/m", true, "warning: unused\n".to_string()), None);
    assert_eq!(
        classify_exit("/work/m", false, "error\n".to_string()),
        Some(BuildError::BuildFailed {
            module_dir: "/work/m".to_string(),
            stderr: "error\n".to_string(),
        })
    );
}

#[test]
fn two_builds_sharing_a_lock_never_build_together() {
    let a = args();
    let mut b = args();
    b.env_vars = vec![("LEVEL".to_string(), "13".to_string())];
    let configs = [a, b];
    let mut states = vec![Some(BuildState::start()), Some(BuildState::start())];
    let mut holder: Option<usize> = None;
    let mut turn = 0;
    let mut overlaps = 0;
    let mut built = [false, false];
    for _ in 0..64 {
        let who = turn % 2;
        turn += if turn % 3 == 0 { 1 } else { 2 };
        let state = states[who].take().unwrap();
        let event = match state.action(&configs[who]) {
            BuildAction::CheckDescriptor { .. } => BuildEvent::DescriptorChecked { is_file: true },
            BuildAction::ReadDescriptor { .. } => descriptor(),
            BuildAction::AcquireLock => {
                if holder.is_none() {
                    holder = Some(who);
                    BuildEvent::LockAcquired
                } else {
                    states[who] = Some(state);
                    continue;
                }
            }
            BuildAction::ResetLock => BuildEvent::LockReset,
            BuildAction::RunToolchain { .. } => {
                built[who] = true;
                exited(true, b"")
            }
            BuildAction::ReleaseLock => {
                holder = None;
                BuildEvent::LockReleased
            }
            BuildAction::MatchArtifacts { .. } => {
                BuildEvent::ArtifactsMatched { entries: vec![file(ARTIFACT)] }
            }
            BuildAction::MatchSources { .. } => BuildEvent::SourcesMatched { entries: vec![] },
            BuildAction::Stop => {
                states[who] = Some(state);
                continue;
            }
        };
        states[who] = Some(state.advance(&configs[who], event));
        let building = states
            .iter()
            .filter(|s| matches!(s, Some(BuildState::Building) | Some(BuildState::Releasing { .. })))
            .count();
        if building > 1 {
            overlaps += 1;
        }
    }
    assert_eq!(overlaps, 0);
    assert_eq!(built, [true, true]);
    assert!(states.iter().all(|s| matches!(s, Some(BuildState::Finished { outcome: Ok(_) }))));
}
