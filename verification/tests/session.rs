use include_wasm_rs::artifact::GlobEntry;
use include_wasm_rs::config::Args;
use include_wasm_rs::error::BuildError;
use include_wasm_rs::features::TargetFeatures;
use include_wasm_rs::invocation::Invocation;
use include_wasm_rs::orchestrator::{BuildAction, BuildEvent, BuildOutput};
use include_wasm_rs::session::Build;

fn config() -> Args {
    Args {
        module_dir: "/work/m".to_string(),
        features: TargetFeatures::none(),
        env_vars: vec![],
        release: false,
    }
}

const ARTIFACT: &str = "/work/m/target/wasm32-unknown-unknown/debug/m.wasm";

fn answer(todo: &BuildAction) -> Option<BuildEvent> {
    Some(match todo {
        BuildAction::CheckDescriptor { .. } => BuildEvent::DescriptorChecked { is_file: true },
        BuildAction::ReadDescriptor { .. } => BuildEvent::DescriptorRead {
            contents: "[package]\nname = \"m\"\n".to_string(),
        },
        BuildAction::AcquireLock => BuildEvent::LockAcquired,
        BuildAction::ResetLock => BuildEvent::LockReset,
        BuildAction::RunToolchain { .. } => {
            BuildEvent::ToolchainExited { success: true, stderr: vec![] }
        }
        BuildAction::ReleaseLock => BuildEvent::LockReleased,
        BuildAction::MatchArtifacts { .. } => BuildEvent::ArtifactsMatched {
            entries: vec![GlobEntry::Found { path: ARTIFACT.to_string(), is_file: true }],
        },
        BuildAction::MatchSources { .. } => BuildEvent::SourcesMatched {
            entries: vec![GlobEntry::Found {
                path: "/work/m/src/lib.rs".to_string(),
                is_file: true,
            }],
        },
        BuildAction::Stop => return None,
    })
}

#[test]
fn build_keeps_its_configuration() {
    let build = Build::start(config());
    assert_eq!(build.args(), &config());
    let build = build.advance(BuildEvent::DescriptorChecked { is_file: true });
    assert_eq!(build.args(), &config());
}

#[test]
fn build_starts_by_checking_the_descriptor() {
    let build = Build::start(config());
    assert_eq!(
        build.action(),
        BuildAction::CheckDescriptor { path: "/work/m/Cargo.toml".to_string() }
    );
    assert_eq!(build.outcome(), None);
}

#[test]
fn answered_build_runs_to_its_artifact() {
    let mut build = Build::start(config());
    let mut asked = Vec::new();
    while let Some(event) = answer(&build.action()) {
        asked.push(build.action());
        build = build.advance(event);
    }
    assert_eq!(asked.len(), 7);
    assert_eq!(asked[3], BuildAction::RunToolchain { invocation: Invocation::for_args(&config()) });
    assert_eq!(
        build.outcome(),
        Some(Ok(BuildOutput {
            artifact: ARTIFACT.to_string(),
            watched: vec!["/work/m/src/lib.rs".to_string()],
        }))
    );
}

#[test]
fn build_without_descriptor_ends_at_once() {
    let build = Build::start(config()).advance(BuildEvent::DescriptorChecked { is_file: false });
    assert_eq!(build.action(), BuildAction::Stop);
    assert_eq!(
        build.outcome(),
        Some(Err(BuildError::MissingDescriptor { module_dir: "/work/m".to_string() }))
    );
}

#[test]
fn build_ignores_what_it_did_not_ask_for() {
    let build = Build::start(config())
        .advance(BuildEvent::LockAcquired)
        .advance(BuildEvent::ToolchainExited { success: true, stderr: vec![] })
        .advance(BuildEvent::LockReleased);
    assert_eq!(
        build.action(),
        BuildAction::CheckDescriptor { path: "/work/m/Cargo.toml".to_string() }
    );
}
