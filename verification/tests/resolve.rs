use kura::errors::KuraError;
use kura::manifest::find_package_name;
use kura::package::{managed_package_dir, raw_manifest_url, Package, PackageKind};

#[test]
fn unresolvable_source_fails() {
    let r = PackageKind::from_source("/no/such/path/anywhere-at-all");
    assert_eq!(r, Err(KuraError::UnresolvableSource));
}

#[test]
fn resolve_policy_is_exact() {
    assert_eq!(
        PackageKind::resolve("https://github.com/user/repo", false),
        Ok(PackageKind::Github(String::from("https://github.com/user/repo")))
    );
    assert_eq!(PackageKind::resolve("some/dir", true), Ok(PackageKind::Local));
    assert_eq!(PackageKind::resolve("some/dir", false), Err(KuraError::UnresolvableSource));
}

#[test]
fn remote_prefix_wins_over_existence() {
    // Even with an existing local path, the remote prefix decides the kind.
    assert!(matches!(
        PackageKind::resolve("https://github.com/user/repo", true),
        Ok(PackageKind::Github(_))
    ));
}

#[test]
fn existing_path_resolves_local() {
    let r = PackageKind::from_source(".");
    assert_eq!(r, Ok(PackageKind::Local));
}

#[test]
fn kind_labels() {
    assert_eq!(PackageKind::Github(String::from("u")).name(), "GitHub");
    assert_eq!(PackageKind::Local.name(), "Local");
}

#[test]
fn raw_manifest_url_strips_git_suffix() {
    assert_eq!(
        raw_manifest_url("https://github.com/u/repo.git"),
        "https://github.com/u/repo/raw/main/Cargo.toml"
    );
    assert_eq!(
        raw_manifest_url("https://github.com/u/repo"),
        "https://github.com/u/repo/raw/main/Cargo.toml"
    );
    assert_eq!(
        raw_manifest_url("https://github.com/u/repo.git.git"),
        "https://github.com/u/repo/raw/main/Cargo.toml"
    );
}

#[test]
fn find_package_name_reads_the_declared_name() {
    let text = "[package]\nname = \"pkg-a\"\nversion = \"0.1.0\"\n";
    assert_eq!(find_package_name(text), Ok(String::from("pkg-a")));
}

#[test]
fn find_package_name_unparsable_text() {
    let text = "this is [ not : toml =";
    assert_eq!(find_package_name(text), Err(KuraError::RemoteManifestUnavailable));
}

#[test]
fn find_package_name_missing_field() {
    let text = "[package]\nversion = \"0.1.0\"\n";
    assert_eq!(find_package_name(text), Err(KuraError::ManifestFieldMissing));
    let text2 = "[dependencies]\nserde = \"1\"\n";
    assert_eq!(find_package_name(text2), Err(KuraError::ManifestFieldMissing));
}

#[test]
fn managed_package_dir_is_under_the_data_dir() {
    assert_eq!(managed_package_dir("/data", "pkg-a"), "/data/kura/crates/pkg-a");
}

#[test]
fn remote_package_identity_from_manifest_text() {
    let url = String::from("https://github.com/u/pkg-a");
    let kind = PackageKind::Github(url.clone());
    let text = "[package]\nname = \"pkg-a\"\n";
    let p = Package::from_manifest_text(url.as_str(), kind.clone(), text, "/data").unwrap();
    assert_eq!(p.name(), "pkg-a");
    assert_eq!(p.kind(), &kind);
    assert_eq!(p.local_path(), "/data/kura/crates/pkg-a");
}

#[test]
fn local_package_identity_canonicalizes_the_source() {
    let text = "[package]\nname = \"pkg-a\"\n";
    let p = Package::from_manifest_text(".", PackageKind::Local, text, "/data").unwrap();
    assert_eq!(p.name(), "pkg-a");
    assert_eq!(p.kind(), &PackageKind::Local);
    // The canonicalized form of the current directory is absolute.
    assert!(p.local_path().starts_with('/'));
}

#[test]
fn package_identity_fails_as_the_manifest_does() {
    let bad = "not ] toml [";
    let r = Package::from_manifest_text(".", PackageKind::Local, bad, "/data");
    assert_eq!(r, Err(KuraError::RemoteManifestUnavailable));
    let missing = "[package]\nversion = \"1\"\n";
    let r2 = Package::from_manifest_text(".", PackageKind::Local, missing, "/data");
    assert_eq!(r2, Err(KuraError::ManifestFieldMissing));
}
