use kura::commands::{plan_install, toolchain_outcome, InstallPlan, ProcessOutput, ToolchainStep};
use kura::config::{config_path_in, get_config_path, Config};
use kura::errors::KuraError;
use kura::package::{Package, PackageKind};

fn local_package(name: &str, path: &str) -> Package {
    Package::from_parts(String::from(name), PackageKind::Local, String::from(path))
}

fn remote_package(name: &str, url: &str, dest: &str) -> Package {
    Package::from_parts(
        String::from(name),
        PackageKind::Github(String::from(url)),
        String::from(dest),
    )
}

#[test]
fn empty_registry() {
    let c = Config::new();
    assert!(c.is_empty());
    assert_eq!(c.len(), 0);
    assert!(!c.contains_name("pkg-a"));
    assert!(c.list().is_empty());
}

#[test]
fn install_registers_in_order() {
    let mut c = Config::new();
    assert!(c.install(local_package("pkg-a", "/local/pkgA")));
    assert!(c.install(remote_package("pkg-b", "https://github.com/u/pkg-b", "/d/kura/crates/pkg-b")));
    assert_eq!(c.len(), 2);
    let listing = c.list();
    assert_eq!(listing[0].0, "pkg-a");
    assert_eq!(listing[0].1, "Local");
    assert_eq!(listing[1].0, "pkg-b");
    assert_eq!(listing[1].1, "GitHub");
}

#[test]
fn installing_the_same_name_twice_keeps_one_entry() {
    let mut c = Config::new();
    assert!(c.install(local_package("pkg-a", "/local/pkgA")));
    assert!(!c.install(local_package("pkg-a", "/elsewhere/pkgA")));
    assert_eq!(c.len(), 1);
    let listing = c.list();
    assert_eq!(listing.len(), 1);
    assert_eq!(listing[0].0, "pkg-a");
    // The second install also plans no clone.
    let again = remote_package("pkg-a", "https://github.com/u/pkg-a", "/d/kura/crates/pkg-a");
    assert_eq!(plan_install(&c, &again), InstallPlan::AlreadyInstalled);
}

#[test]
fn removing_an_absent_name_is_a_no_op() {
    let mut c = Config::new();
    assert!(c.install(local_package("pkg-a", "/local/pkgA")));
    assert!(!c.remove("pkg-b"));
    assert_eq!(c.len(), 1);
    assert!(c.contains_name("pkg-a"));
}

#[test]
fn removing_a_present_name_deletes_only_that_entry() {
    let mut c = Config::new();
    assert!(c.install(local_package("pkg-a", "/local/pkgA")));
    assert!(c.install(local_package("pkg-b", "/local/pkgB")));
    assert!(c.remove("pkg-a"));
    assert_eq!(c.len(), 1);
    assert!(!c.contains_name("pkg-a"));
    assert!(c.contains_name("pkg-b"));
}

#[test]
fn install_after_remove_registers_again() {
    let mut c = Config::new();
    assert!(c.install(local_package("pkg-a", "/local/pkgA")));
    assert!(c.remove("pkg-a"));
    assert!(c.install(local_package("pkg-a", "/local/pkgA")));
    assert_eq!(c.len(), 1);
}

#[test]
fn fresh_install_of_a_local_package() {
    // Registry empty, then a local source whose manifest declares "pkg-a":
    // one entry {name: pkg-a, kind: Local, local_path}.
    let text = "[package]\nname = \"pkg-a\"\n";
    let p = Package::from_manifest_text(".", PackageKind::Local, text, "/data").unwrap();
    let mut c = Config::new();
    assert_eq!(plan_install(&c, &p), InstallPlan::RegisterOnly);
    assert!(c.install(p));
    assert_eq!(c.len(), 1);
    let listing = c.list();
    assert_eq!(listing[0].0, "pkg-a");
    assert_eq!(listing[0].1, "Local");
}

#[test]
fn fresh_remote_install_plans_a_clone() {
    let c = Config::new();
    let p = remote_package("pkg-b", "https://github.com/u/pkg-b", "/d/kura/crates/pkg-b");
    assert_eq!(
        plan_install(&c, &p),
        InstallPlan::CloneInto {
            url: String::from("https://github.com/u/pkg-b"),
            dest: String::from("/d/kura/crates/pkg-b"),
        }
    );
}

#[test]
fn config_path_formula() {
    assert_eq!(config_path_in("/data"), "/data/kura/config.toml");
}

#[test]
fn config_path_under_the_platform_data_dir() {
    match get_config_path() {
        Ok(p) => assert!(p.ends_with("/kura/config.toml")),
        Err(e) => assert_eq!(e, KuraError::DataDirUnavailable),
    }
}

#[test]
fn toolchain_outcomes_map_to_their_step() {
    let ok = ProcessOutput {
        success: true,
        stdout: String::from(""),
        stderr: String::from(""),
    };
    assert_eq!(toolchain_outcome(ToolchainStep::BuildArtifact, ok), Ok(()));
    let fail = |s: &str| ProcessOutput {
        success: false,
        stdout: String::new(),
        stderr: String::from(s),
    };
    assert_eq!(
        toolchain_outcome(ToolchainStep::InitScaffold, fail("init oops")),
        Err(KuraError::ScaffoldInitFailed(String::from("init oops")))
    );
    assert_eq!(
        toolchain_outcome(ToolchainStep::CloneRepo, fail("clone oops")),
        Err(KuraError::CloneFailed(String::from("clone oops")))
    );
    assert_eq!(
        toolchain_outcome(ToolchainStep::BuildArtifact, fail("build oops")),
        Err(KuraError::BuildFailed(String::from("build oops")))
    );
}

#[test]
fn error_messages_and_captured_stderr() {
    assert!(!KuraError::DataDirUnavailable.message().is_empty());
    assert!(!KuraError::UnresolvableSource.message().is_empty());
    let e = KuraError::BuildFailed(String::from("boom"));
    assert_eq!(e.captured_stderr(), Some(&String::from("boom")));
    assert_eq!(KuraError::ScriptNotFound.captured_stderr(), None);
}
