//! Command-level decisions: what an install must do, how an external
//! invocation's outcome maps to an error, and the laws the registry
//! operations obey across commands.

use vstd::prelude::*;

use crate::config::Config;
use crate::errors::KuraError;
use crate::package::{Package, PackageKind};

verus! {

/// What the install step must do for a resolved package.
#[derive(Debug, Clone, PartialEq, Eq)]
pub enum InstallPlan {
    /// The name is already registered: report it and change nothing.
    AlreadyInstalled,
    /// Clone the remote repository at `url` into `dest`, then register.
    CloneInto { url: String, dest: String },
    /// A local package is referenced in place: just register.
    RegisterOnly,
}

/// Decides the install step for a resolved package against the loaded
/// registry: a name already present is reported and nothing else happens (in
/// particular no clone); a fresh remote package is cloned into its managed
/// directory; a fresh local package is only registered.
pub fn plan_install(registry: &Config, package: &Package) -> (r: InstallPlan)
    ensures
        (r is AlreadyInstalled) == registry.spec_contains_name(package.name@),
        !registry.spec_contains_name(package.name@) ==> match package.kind {
            PackageKind::Github(u) => r matches InstallPlan::CloneInto { url, dest } && url@ == u@
                && dest@ == package.local_path@,
            PackageKind::Local => r is RegisterOnly,
        },
{
    if registry.contains_name(package.name.as_str()) {
        InstallPlan::AlreadyInstalled
    } else {
        match &package.kind {
            PackageKind::Github(u) => InstallPlan::CloneInto {
                url: String::from_str(u.as_str()),
                dest: String::from_str(package.local_path.as_str()),
            },
            PackageKind::Local => InstallPlan::RegisterOnly,
        }
    }
}

/// What an external toolchain or version-control invocation came back with.
#[derive(Debug, Clone, PartialEq, Eq)]
pub struct ProcessOutput {
    pub success: bool,
    pub stdout: String,
    pub stderr: String,
}

/// Which external step an outcome belongs to.
#[derive(Debug, Clone, Copy, PartialEq, Eq, Structural)]
pub enum ToolchainStep {
    InitScaffold,
    CloneRepo,
    BuildArtifact,
}

/// Maps an external invocation's outcome to the step's error kind: success
/// passes, and a non-zero exit carries the captured standard error in the
/// error of the step it belongs to.
pub fn toolchain_outcome(step: ToolchainStep, output: ProcessOutput) -> (r: Result<(), KuraError>)
    ensures
        (r is Ok) == output.success,
        !output.success ==> match step {
            ToolchainStep::InitScaffold => r == Err::<(), KuraError>(
                KuraError::ScaffoldInitFailed(output.stderr),
            ),
            ToolchainStep::CloneRepo => r == Err::<(), KuraError>(
                KuraError::CloneFailed(output.stderr),
            ),
            ToolchainStep::BuildArtifact => r == Err::<(), KuraError>(
                KuraError::BuildFailed(output.stderr),
            ),
        },
{
    if output.success {
        Ok(())
    } else {
        match step {
            ToolchainStep::InitScaffold => Err(KuraError::ScaffoldInitFailed(output.stderr)),
            ToolchainStep::CloneRepo => Err(KuraError::CloneFailed(output.stderr)),
            ToolchainStep::BuildArtifact => Err(KuraError::BuildFailed(output.stderr)),
        }
    }
}

/// How often a name occurs among the registered names.
pub open spec fn count_name(s: Seq<Seq<char>>, n: Seq<char>) -> nat
    decreases s.len(),
{
    if s.len() == 0 {
        0
    } else {
        count_name(s.drop_last(), n) + if s.last() == n {
            1nat
        } else {
            0nat
        }
    }
}

/// A name occurs among a sequence of names exactly as `contains` says.
pub proof fn lemma_count_pos_iff_contains(s: Seq<Seq<char>>, n: Seq<char>)
    ensures
        (count_name(s, n) > 0) == s.contains(n),
    decreases s.len(),
{
    if s.len() > 0 {
        lemma_count_pos_iff_contains(s.drop_last(), n);
        if s.last() == n {
            assert(s[s.len() - 1] == n);
        } else if s.drop_last().contains(n) {
            let w = choose|w: int| 0 <= w < s.drop_last().len() && s.drop_last()[w] == n;
            assert(s[w] == n);
        } else if s.contains(n) {
            let w = choose|w: int| 0 <= w < s.len() && s[w] == n;
            assert(w < s.len() - 1 ==> s.drop_last()[w] == n);
        }
    }
}

/// Among duplicate-free names, no name occurs twice.
pub proof fn lemma_count_le_one(s: Seq<Seq<char>>, n: Seq<char>)
    requires
        s.no_duplicates(),
    ensures
        count_name(s, n) <= 1,
    decreases s.len(),
{
    if s.len() > 0 {
        assert forall|i: int, j: int|
            0 <= i < s.drop_last().len() && 0 <= j < s.drop_last().len() && i
                != j implies s.drop_last()[i] != s.drop_last()[j] by {
            assert(s[i] == s.drop_last()[i] && s[j] == s.drop_last()[j]);
        }
        lemma_count_le_one(s.drop_last(), n);
        if s.last() == n {
            lemma_count_pos_iff_contains(s.drop_last(), n);
            if s.drop_last().contains(n) {
                let w = choose|w: int| 0 <= w < s.drop_last().len() && s.drop_last()[w] == n;
                assert(s[w] == s[s.len() - 1]);
            }
        }
    }
}

/// Law: installing a package under a name the registry already holds is a
/// no-op. Two installs under one name, each related to its pre-state as
/// `Config::install` promises, leave the registry after the second exactly
/// as it stood after the first, the second install adds nothing, and the
/// registry holds exactly one entry for the name. By `plan_install`'s
/// contract, the second install also plans no clone, since after the first
/// install the name is registered.
pub proof fn lemma_second_install_no_op(
    pre: Config,
    mid: Config,
    post: Config,
    p1: Package,
    p2: Package,
    a1: bool,
    a2: bool,
)
    requires
        pre.wf(),
        p2.name@ == p1.name@,
        a1 == !pre.spec_contains_name(p1.name@),
        a1 ==> mid.packages@ == pre.packages@.push(p1),
        !a1 ==> mid.packages@ == pre.packages@,
        a2 == !mid.spec_contains_name(p2.name@),
        a2 ==> post.packages@ == mid.packages@.push(p2),
        !a2 ==> post.packages@ == mid.packages@,
    ensures
        !a2,
        post.packages@ == mid.packages@,
        mid.spec_contains_name(p2.name@),
        count_name(post.names(), p1.name@) == 1,
{
    let n = p1.name@;
    if a1 {
        assert(mid.names() =~= pre.names().push(n));
        assert(mid.names().last() == n);
        assert(mid.spec_contains_name(n));
        assert forall|i: int, j: int|
            0 <= i < mid.names().len() && 0 <= j < mid.names().len() && i
                != j implies mid.names()[i] != mid.names()[j] by {
            if i < pre.names().len() && j < pre.names().len() {
            } else if i < pre.names().len() {
                assert(pre.names()[i] == mid.names()[i]);
            } else {
            }
        }
        assert(mid.wf());
    } else {
        assert(mid.names() =~= pre.names());
    }
    assert(post.names() == mid.names());
    lemma_count_le_one(post.names(), n);
    lemma_count_pos_iff_contains(post.names(), n);
}

/// Law: removing a name the registry does not hold leaves the registry
/// unchanged — and so an unchanged registry document is written back, or
/// none at all. The hypotheses are what `Config::remove` promises of a
/// removal of an absent name.
pub proof fn lemma_remove_absent_no_op(
    pre: Config,
    post: Config,
    name: Seq<char>,
    removed: bool,
)
    requires
        !pre.spec_contains_name(name),
        removed == pre.spec_contains_name(name),
        !removed ==> post.packages@ == pre.packages@,
    ensures
        !removed,
        post.packages@ == pre.packages@,
        post.names() == pre.names(),
{
    assert(post.names() =~= pre.names());
}

} // verus!
