//! Package identity: resolving a raw source string into a typed package
//! identity with a canonical name and a local filesystem path.

use vstd::prelude::*;

use crate::errors::KuraError;
use crate::manifest::{declared_name, find_package_name, manifest_parses};
use crate::strutil::{str_starts_with, trim_end_matches_all, without_suffix_reps};

verus! {

/// Where a package came from: a remote source-control repository, or a
/// directory that already exists on the local filesystem.
#[derive(Debug, Clone, PartialEq, Eq)]
pub enum PackageKind {
    /// A remote repository, with its URL.
    Github(String),
    /// A local directory, referenced in place.
    Local,
}

/// An installed unit of extension code.
///
/// `name` is the name the package's own build manifest declares, never the
/// user-supplied source string; `local_path` is where the package's root
/// directory lies (or will lie, for a remote package not yet cloned).
#[derive(Debug, Clone, PartialEq, Eq)]
pub struct Package {
    pub name: String,
    pub kind: PackageKind,
    pub local_path: String,
}

/// The URL prefix that marks a source string as a remote repository.
pub open spec fn remote_prefix() -> Seq<char> {
    "https://github.com/"@
}

/// Whether the source string names a remote repository.
pub open spec fn is_remote_source(source: Seq<char>) -> bool {
    remote_prefix().is_prefix_of(source)
}

/// Relies on `std::path::Path::exists`: whether the source string points at
/// an existing filesystem entry. The answer depends on the state of the disk,
/// so nothing is promised of it.
#[verifier::external_body]
pub(crate) fn path_exists(path: &str) -> bool {
    std::path::Path::new(path).exists()
}

/// Relies on `std::path::Path::canonicalize`: the absolute, symlink-resolved
/// form of the path, or `None` where the path does not resolve. The answer
/// depends on the state of the disk, so nothing is promised of it.
#[verifier::external_body]
pub(crate) fn canonicalize_path(path: &str) -> Option<String> {
    match std::path::Path::new(path).canonicalize() {
        Ok(p) => Some(p.to_string_lossy().to_string()),
        Err(_) => None,
    }
}

impl PackageKind {
    /// The resolution policy on a source string whose local existence is
    /// already known: a matching remote-URL prefix wins, then an existing
    /// local path, and everything else is unresolvable.
    pub fn resolve(source: &str, local_exists: bool) -> (r: Result<PackageKind, KuraError>)
        ensures
            match r {
                Ok(PackageKind::Github(u)) => is_remote_source(source@) && u@ == source@,
                Ok(PackageKind::Local) => !is_remote_source(source@) && local_exists,
                Err(e) => e == KuraError::UnresolvableSource && !is_remote_source(source@)
                    && !local_exists,
            },
    {
        if str_starts_with(source, "https://github.com/") {
            Ok(PackageKind::Github(String::from_str(source)))
        } else if local_exists {
            Ok(PackageKind::Local)
        } else {
            Err(KuraError::UnresolvableSource)
        }
    }

    /// Determines the package kind of a source string, probing the local
    /// filesystem for the non-remote case.
    pub fn from_source(source: &str) -> (r: Result<PackageKind, KuraError>)
        ensures
            match r {
                Ok(PackageKind::Github(u)) => is_remote_source(source@) && u@ == source@,
                Ok(PackageKind::Local) => !is_remote_source(source@),
                Err(e) => e == KuraError::UnresolvableSource && !is_remote_source(source@),
            },
    {
        let local_exists = path_exists(source);
        PackageKind::resolve(source, local_exists)
    }

    /// The kind's label, as shown when listing packages.
    pub fn name(&self) -> (r: &'static str)
        ensures
            match self {
                PackageKind::Github(_) => r@ == "GitHub"@,
                PackageKind::Local => r@ == "Local"@,
            },
    {
        match self {
            PackageKind::Github(_) => "GitHub",
            PackageKind::Local => "Local",
        }
    }
}

/// The well-known raw-content URL of a remote repository's build manifest:
/// the locator without its `.git` suffix, then the raw-content path.
pub open spec fn raw_manifest_url_of(locator: Seq<char>) -> Seq<char> {
    without_suffix_reps(locator, ".git"@) + "/raw/main/Cargo.toml"@
}

/// The URL the build manifest of a remote repository is fetched from,
/// without cloning the repository.
pub fn raw_manifest_url(locator: &str) -> (r: String)
    ensures
        r@ == raw_manifest_url_of(locator@),
{
    proof {
        reveal_strlit(".git");
    }
    let trimmed = trim_end_matches_all(locator, ".git");
    let mut url = String::from_str(trimmed);
    url.append("/raw/main/Cargo.toml");
    url
}

/// The directory a remote package is cloned into: the managed-packages
/// directory of the data directory, under the package's name.
pub open spec fn managed_package_dir_of(data_dir: Seq<char>, name: Seq<char>) -> Seq<char> {
    data_dir + "/kura/crates/"@ + name
}

/// Where the install step places (or would place) the clone of a remote
/// package with the given name.
pub fn managed_package_dir(data_dir: &str, name: &str) -> (r: String)
    ensures
        r@ == managed_package_dir_of(data_dir@, name@),
{
    let mut dir = String::from_str(data_dir);
    dir.append("/kura/crates/");
    dir.append(name);
    dir
}

impl Package {
    /// Assembles a package identity from its parts.
    pub fn from_parts(name: String, kind: PackageKind, local_path: String) -> (r: Package)
        ensures
            r.name == name,
            r.kind == kind,
            r.local_path == local_path,
    {
        Package { name, kind, local_path }
    }

    /// Completes resolution once the package's build-manifest text is in
    /// hand: reads the declared name out of the text, then computes the
    /// canonical local path. For a local package that is the canonicalized
    /// source path (probing the disk); for a remote package it is the
    /// deterministic clone location under the data directory, computed before
    /// any clone occurs.
    pub fn from_manifest_text(source: &str, kind: PackageKind, manifest_text: &str, data_dir: &str)
        -> (r: Result<Package, KuraError>)
        ensures
            match r {
                Ok(p) => {
                    &&& p.kind == kind
                    &&& manifest_parses(manifest_text@)
                    &&& declared_name(manifest_text@) == Some(p.name@)
                    &&& (kind is Github ==> p.local_path@ == managed_package_dir_of(
                        data_dir@,
                        p.name@,
                    ))
                },
                Err(e) => {
                    ||| (e == KuraError::RemoteManifestUnavailable && !manifest_parses(
                        manifest_text@,
                    ))
                    ||| (e == KuraError::ManifestFieldMissing && manifest_parses(manifest_text@)
                        && declared_name(manifest_text@) is None)
                    ||| (e == KuraError::UnresolvableSource && kind is Local)
                },
            },
    {
        let name = match find_package_name(manifest_text) {
            Ok(n) => n,
            Err(e) => {
                return Err(e);
            },
        };
        let local_path = match kind {
            PackageKind::Local => {
                match canonicalize_path(source) {
                    Some(p) => p,
                    None => {
                        return Err(KuraError::UnresolvableSource);
                    },
                }
            },
            PackageKind::Github(_) => managed_package_dir(data_dir, name.as_str()),
        };
        Ok(Package { name, kind, local_path })
    }

    /// The package's canonical name.
    pub fn name(&self) -> (r: &str)
        ensures
            r@ == self.name@,
    {
        self.name.as_str()
    }

    /// The package's kind.
    pub fn kind(&self) -> (r: &PackageKind)
        ensures
            r == self.kind,
    {
        &self.kind
    }

    /// The package's root directory on the local filesystem.
    pub fn local_path(&self) -> (r: &str)
        ensures
            r@ == self.local_path@,
    {
        self.local_path.as_str()
    }

}

} // verus!
