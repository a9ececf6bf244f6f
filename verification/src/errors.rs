//! The error kinds of the install/build/run lifecycle.

use vstd::prelude::*;

verus! {

/// Everything that can make a command fail.
///
/// The toolchain and version-control variants carry the captured standard
/// error of the external process that failed.
#[derive(Debug, Clone, PartialEq, Eq)]
pub enum KuraError {
    /// The source string matches neither the remote-URL prefix nor an
    /// existing local path.
    UnresolvableSource,
    /// The package's build manifest could not be fetched or parsed.
    RemoteManifestUnavailable,
    /// The package's build manifest parses but declares no package name.
    ManifestFieldMissing,
    /// The toolchain's project-initialization command exited non-zero.
    ScaffoldInitFailed(String),
    /// The toolchain's build command exited non-zero.
    BuildFailed(String),
    /// The version-control clone of a remote package exited non-zero.
    CloneFailed(String),
    /// The script path handed to `run` does not resolve to a file.
    ScriptNotFound,
    /// The platform supplies no writable data directory.
    DataDirUnavailable,
    /// The entry-point template does not contain the placeholder marker
    /// exactly once, or the marker would survive substitution.
    TemplateMalformed,
}

impl KuraError {
    /// A short description of the failure, for the process's error stream.
    pub fn message(&self) -> (r: String)
        ensures
            r@.len() > 0,
    {
        let msg: &str = match self {
            KuraError::UnresolvableSource => "unknown package kind for source",
            KuraError::RemoteManifestUnavailable => "could not fetch or parse the package manifest",
            KuraError::ManifestFieldMissing => "could not find the package name in the manifest",
            KuraError::ScaffoldInitFailed(_) => "failed to initialize the host project",
            KuraError::BuildFailed(_) => "failed to build the host project",
            KuraError::CloneFailed(_) => "failed to clone the remote repository",
            KuraError::ScriptNotFound => "script file not found",
            KuraError::DataDirUnavailable => "could not find the data directory",
            KuraError::TemplateMalformed => "the entry-point template is malformed",
        };
        proof {
            reveal_strlit("unknown package kind for source");
            reveal_strlit("could not fetch or parse the package manifest");
            reveal_strlit("could not find the package name in the manifest");
            reveal_strlit("failed to initialize the host project");
            reveal_strlit("failed to build the host project");
            reveal_strlit("failed to clone the remote repository");
            reveal_strlit("script file not found");
            reveal_strlit("could not find the data directory");
            reveal_strlit("the entry-point template is malformed");
        }
        String::from_str(msg)
    }

    /// The captured standard error of the external process, where the
    /// failure carries one.
    pub fn captured_stderr(&self) -> (r: Option<&String>)
        ensures
            match self {
                KuraError::ScaffoldInitFailed(s) => r == Some(s),
                KuraError::BuildFailed(s) => r == Some(s),
                KuraError::CloneFailed(s) => r == Some(s),
                _ => r is None,
            },
    {
        match self {
            KuraError::ScaffoldInitFailed(s) => Some(s),
            KuraError::BuildFailed(s) => Some(s),
            KuraError::CloneFailed(s) => Some(s),
            _ => None,
        }
    }
}

} // verus!
