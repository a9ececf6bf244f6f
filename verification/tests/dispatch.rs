use kura::errors::KuraError;
use kura::host::BuildMode;
use kura::run::{artifact_path, mode_dir, plan_run, prepare_run};

#[test]
fn mode_dirs() {
    assert_eq!(mode_dir(BuildMode::Debug), "debug");
    assert_eq!(mode_dir(BuildMode::Release), "release");
}

#[test]
fn artifact_path_formula() {
    assert_eq!(
        artifact_path("/data/kura/crates/koto-local", BuildMode::Release, false),
        "/data/kura/crates/koto-local/target/release/koto"
    );
    assert_eq!(
        artifact_path("/s", BuildMode::Debug, false),
        "/s/target/debug/koto"
    );
    assert_eq!(
        artifact_path("/s", BuildMode::Release, true),
        "/s/target/release/koto.exe"
    );
}

#[test]
fn missing_script_fails_before_anything_else() {
    let r = plan_run(None, false, String::from("/a/artifact"));
    assert_eq!(r, Err(KuraError::ScriptNotFound));
    let r2 = plan_run(None, true, String::from("/a/artifact"));
    assert_eq!(r2, Err(KuraError::ScriptNotFound));
}

#[test]
fn resolved_script_runs_after_a_build_only_if_the_artifact_is_absent() {
    let plan = plan_run(Some(String::from("/abs/script.ks")), false, String::from("/a")).unwrap();
    assert!(plan.build_first);
    assert_eq!(plan.script, "/abs/script.ks");
    assert_eq!(plan.artifact, "/a");
    let plan2 = plan_run(Some(String::from("/abs/script.ks")), true, String::from("/a")).unwrap();
    assert!(!plan2.build_first);
}

#[test]
fn prepare_run_rejects_a_missing_script() {
    let r = prepare_run("/no/such/script.ks", BuildMode::Release, "/data", false);
    assert_eq!(r, Err(KuraError::ScriptNotFound));
}

#[test]
fn prepare_run_with_no_artifact_triggers_a_build() {
    // The current directory exists and canonicalizes; no artifact was ever
    // built under this data directory, so a build comes first, and the
    // artifact is the release binary under the scaffold.
    let plan = prepare_run(".", BuildMode::Release, "/data", false).unwrap();
    assert!(plan.build_first);
    assert_eq!(plan.artifact, "/data/kura/crates/koto-local/target/release/koto");
    assert!(plan.script.starts_with('/'));
}
