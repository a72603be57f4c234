use include_wasm_rs::error::{unreadable_message, BuildError, ErrorKind};

#[test]
fn missing_descriptor_names_the_directory() {
    let e = BuildError::MissingDescriptor { module_dir: "/work/m".to_string() };
    assert_eq!(e.message(), "target directory `/work/m` does not contain a `Cargo.toml` file");
    assert_eq!(e.kind(), ErrorKind::Configuration);
}

#[test]
fn unreadable_descriptor_gives_the_reason() {
    let e = BuildError::UnreadableDescriptor { reason: "permission denied".to_string() };
    assert_eq!(e.message(), "failed to read target `Cargo.toml`: permission denied");
    assert_eq!(e.kind(), ErrorKind::Configuration);
}

#[test]
fn workspace_is_no_module() {
    let e = BuildError::Workspace;
    assert_eq!(e.message(), "provided directory points to a workspace, not a module");
    assert_eq!(e.kind(), ErrorKind::Configuration);
}

#[test]
fn spawn_failure_gives_the_reason() {
    let e = BuildError::SpawnFailed {
        module_dir: "/work/m".to_string(),
        reason: "No such file or directory (os error 2)".to_string(),
    };
    assert_eq!(
        e.message(),
        "failed to build module `/work/m`: No such file or directory (os error 2)"
    );
    assert_eq!(e.kind(), ErrorKind::Spawn);
}

#[test]
fn build_failure_indents_the_compiler_output() {
    let e = BuildError::BuildFailed {
        module_dir: "/work/m".to_string(),
        stderr: "error[E0425]: cannot find value\n --> src/lib.rs:1:1\n".to_string(),
    };
    assert_eq!(
        e.message(),
        "failed to build module `/work/m`: \nerror[E0425]: cannot find value\n\t --> src/lib.rs:1:1\n\t"
    );
    assert_eq!(e.kind(), ErrorKind::Execution);
}

#[test]
fn unreadable_artifact_quotes_the_pattern() {
    let e = BuildError::ArtifactUnreadable {
        pattern: "m/target/debug/*.wasm".to_string(),
        reason: "attempting to read `m/target` resulted in an error: denied".to_string(),
    };
    assert_eq!(
        e.message(),
        "failed to find output file matching `\"m/target/debug/*.wasm\"`: attempting to read `m/target` resulted in an error: denied - this is probably a bug"
    );
    assert_eq!(e.kind(), ErrorKind::Resolution);
}

#[test]
fn unreadable_artifact_escapes_what_needs_it() {
    let e = BuildError::ArtifactUnreadable {
        pattern: "a\"b\\c".to_string(),
        reason: "r".to_string(),
    };
    assert_eq!(
        e.message(),
        "failed to find output file matching `\"a\\\"b\\\\c\"`: r - this is probably a bug"
    );
}

#[test]
fn no_artifact_names_the_pattern() {
    let e = BuildError::NoArtifact { pattern: "m/target/debug/*.wasm".to_string() };
    assert_eq!(
        e.message(),
        "failed to find output file matching `m/target/debug/*.wasm` - this is probably a bug"
    );
    assert_eq!(e.kind(), ErrorKind::Resolution);
}

#[test]
fn multiple_artifacts_suggest_a_clean_up() {
    let e = BuildError::MultipleArtifacts {
        pattern: "m/target/wasm32-unknown-unknown/debug/*.wasm".to_string(),
        output_root: "m/target/wasm32-unknown-unknown/".to_string(),
    };
    assert_eq!(
        e.message(),
        "multiple output files matching `m/target/wasm32-unknown-unknown/debug/*.wasm` were found - this may be because you recently changed the name of your module; try deleting the folder `m/target/wasm32-unknown-unknown/` and rebuilding"
    );
    assert_eq!(e.kind(), ErrorKind::Resolution);
}

#[test]
fn unreadable_message_takes_the_pattern_as_quoted() {
    assert_eq!(
        unreadable_message("\"m/*.wasm\"", "denied"),
        "failed to find output file matching `\"m/*.wasm\"`: denied - this is probably a bug"
    );
    assert_eq!(
        unreadable_message("", ""),
        "failed to find output file matching ``:  - this is probably a bug"
    );
}
