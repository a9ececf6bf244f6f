//! The run dispatcher: where the artifact of a build mode is expected, and
//! the decision to build before running and to refuse a script path that
//! does not resolve.

use vstd::prelude::*;

use crate::errors::KuraError;
use crate::host::{bin_name, scaffold_dir, scaffold_dir_of, BuildMode};
use crate::package::{canonicalize_path, path_exists};

verus! {

/// The artifact subdirectory a build mode fills.
pub open spec fn mode_dir_of(mode: BuildMode) -> Seq<char> {
    match mode {
        BuildMode::Debug => "debug"@,
        BuildMode::Release => "release"@,
    }
}

/// The artifact subdirectory of a build mode.
pub fn mode_dir(mode: BuildMode) -> (r: &'static str)
    ensures
        r@ == mode_dir_of(mode),
{
    match mode {
        BuildMode::Debug => "debug",
        BuildMode::Release => "release",
    }
}

/// Where the artifact of a build mode is expected under the scaffold
/// directory; on Windows the binary carries the `.exe` suffix.
pub open spec fn artifact_path_of(scaffold: Seq<char>, mode: BuildMode, windows: bool) -> Seq<
    char,
> {
    scaffold + "/target/"@ + mode_dir_of(mode) + "/"@ + bin_name() + (if windows {
        ".exe"@
    } else {
        Seq::<char>::empty()
    })
}

/// The expected artifact path for a build mode.
pub fn artifact_path(scaffold: &str, mode: BuildMode, windows: bool) -> (r: String)
    ensures
        r@ == artifact_path_of(scaffold@, mode, windows),
{
    let mut p = String::from_str(scaffold);
    p.append("/target/");
    p.append(mode_dir(mode));
    p.append("/");
    p.append("koto");
    if windows {
        p.append(".exe");
    } else {
        proof {
            assert(p@ + Seq::<char>::empty() =~= p@);
        }
    }
    p
}

/// Everything the dispatch of a run needs: the artifact to spawn, the
/// canonicalized script path to hand it, and whether a build must come
/// first.
#[derive(Debug, Clone, PartialEq, Eq)]
pub struct RunPlan {
    pub artifact: String,
    pub script: String,
    pub build_first: bool,
}

/// The dispatch decision. A script path that did not resolve fails with
/// `ScriptNotFound` — no plan is produced, so no build and no spawn can
/// follow. Otherwise the artifact is spawned on the canonicalized script
/// path, after a build exactly when the artifact is absent.
pub fn plan_run(canonical_script: Option<String>, artifact_exists: bool, artifact: String) -> (r:
    Result<RunPlan, KuraError>)
    ensures
        match canonical_script {
            None => r == Err::<RunPlan, KuraError>(KuraError::ScriptNotFound),
            Some(cs) => r matches Ok(p) && p.script == cs && p.artifact == artifact
                && p.build_first == !artifact_exists,
        },
{
    match canonical_script {
        None => Err(KuraError::ScriptNotFound),
        Some(cs) => Ok(RunPlan { artifact, script: cs, build_first: !artifact_exists }),
    }
}

/// Plans a run against the filesystem: canonicalizes the script path,
/// computes the expected artifact path for the mode, and probes for the
/// artifact. Whatever the probes find, failure is exactly `ScriptNotFound`,
/// and a produced plan names the expected artifact.
pub fn prepare_run(script: &str, mode: BuildMode, data_dir: &str, windows: bool) -> (r: Result<
    RunPlan,
    KuraError,
>)
    ensures
        match r {
            Ok(p) => p.artifact@ == artifact_path_of(scaffold_dir_of(data_dir@), mode, windows),
            Err(e) => e == KuraError::ScriptNotFound,
        },
{
    let canonical = canonicalize_path(script);
    let scaffold = scaffold_dir(data_dir);
    let artifact = artifact_path(scaffold.as_str(), mode, windows);
    plan_run(canonical, path_exists(artifact.as_str()), artifact)
}

} // verus!
