use kura::config::Config;
use kura::errors::KuraError;
use kura::host::{
    build_args, registration_stmt, registration_statements, render_entry_point, scaffold_dir,
    BuildMode, HostManifest,
};
use kura::package::{Package, PackageKind};
use kura::strutil::replace_dashes;

fn local_package(name: &str, path: &str) -> Package {
    Package::from_parts(String::from(name), PackageKind::Local, String::from(path))
}

#[test]
fn build_mode_defaults_to_release() {
    assert!(matches!(BuildMode::default(), BuildMode::Release));
}

#[test]
fn build_args_per_mode() {
    assert_eq!(build_args(BuildMode::Debug), vec![String::from("build")]);
    assert_eq!(
        build_args(BuildMode::Release),
        vec![String::from("build"), String::from("--release")]
    );
}

#[test]
fn scaffold_dir_formula() {
    assert_eq!(scaffold_dir("/data"), "/data/kura/crates/koto-local");
}

#[test]
fn bin_target_is_created_when_none_exists() {
    let mut m = HostManifest::new();
    m.set_bin_name("koto");
    assert_eq!(m.bin.len(), 1);
    assert_eq!(m.bin[0].name, "koto");
    assert_eq!(m.bin[0].path, "src/main.rs");
}

#[test]
fn every_bin_target_is_renamed() {
    let mut m = HostManifest::new();
    m.set_bin_name("other");
    m.set_bin_name("second");
    m.set_bin_name("koto");
    assert_eq!(m.bin.len(), 1);
    assert_eq!(m.bin[0].name, "koto");
}

#[test]
fn manifest_dependencies_mirror_the_registry() {
    let mut c = Config::new();
    assert!(c.install(local_package("pkg-a", "/local/pkgA")));
    assert!(c.install(local_package("pkg-b", "/local/pkgB")));
    let mut m = HostManifest::new();
    m.sync_dependencies(&c);
    let deps = m.dependencies.clone().unwrap();
    assert_eq!(deps.len(), 2);
    assert_eq!(deps[0].name, "pkg-a");
    assert_eq!(deps[0].path, "/local/pkgA");
    assert_eq!(deps[1].name, "pkg-b");
    assert_eq!(deps[1].path, "/local/pkgB");
}

#[test]
fn removed_packages_leave_the_next_manifest() {
    let mut c = Config::new();
    assert!(c.install(local_package("pkg-a", "/local/pkgA")));
    assert!(c.install(local_package("pkg-b", "/local/pkgB")));
    let mut m = HostManifest::new();
    m.sync_dependencies(&c);
    assert_eq!(m.dependencies.clone().unwrap().len(), 2);
    assert!(c.remove("pkg-a"));
    m.sync_dependencies(&c);
    let deps = m.dependencies.clone().unwrap();
    assert_eq!(deps.len(), 1);
    assert_eq!(deps[0].name, "pkg-b");
    assert_eq!(deps[0].path, "/local/pkgB");
}

#[test]
fn hyphens_become_underscores() {
    assert_eq!(replace_dashes("pkg-a"), "pkg_a");
    assert_eq!(replace_dashes("a-b-c"), "a_b_c");
    assert_eq!(replace_dashes("plain"), "plain");
    assert_eq!(replace_dashes(""), "");
}

#[test]
fn registration_stmt_formula() {
    assert_eq!(
        registration_stmt("demo-lib"),
        "prelude.insert(\"demo_lib\", demo_lib::make_module());"
    );
}

#[test]
fn one_registration_statement_per_package() {
    let mut c = Config::new();
    assert!(c.install(local_package("pkg-a", "/local/pkgA")));
    assert!(c.install(local_package("demo-lib", "/local/demo")));
    let stmts = registration_statements(&c);
    assert_eq!(stmts.len(), 2);
    assert_eq!(stmts[0], "prelude.insert(\"pkg_a\", pkg_a::make_module());");
    assert_eq!(stmts[1], "prelude.insert(\"demo_lib\", demo_lib::make_module());");
}

#[test]
fn render_substitutes_the_placeholder_once() {
    let template = "head\n// <INSERT_PRELUDE_VALUES>\ntail\n";
    let stmts = vec![String::from("s1();"), String::from("s2();")];
    let out = render_entry_point(template, &stmts).unwrap();
    assert_eq!(out, "head\ns1();\ns2();\ntail\n");
    assert!(!out.contains("// <INSERT_PRELUDE_VALUES>"));
}

#[test]
fn render_with_no_statements_removes_the_placeholder() {
    let template = "a\n// <INSERT_PRELUDE_VALUES>\nb\n";
    let stmts: Vec<String> = Vec::new();
    let out = render_entry_point(template, &stmts).unwrap();
    assert_eq!(out, "a\n\nb\n");
}

#[test]
fn render_rejects_a_template_without_the_placeholder() {
    let stmts = vec![String::from("s();")];
    assert_eq!(
        render_entry_point("no marker here", &stmts),
        Err(KuraError::TemplateMalformed)
    );
}

#[test]
fn render_rejects_a_template_with_two_placeholders() {
    let template = "// <INSERT_PRELUDE_VALUES>\n// <INSERT_PRELUDE_VALUES>\n";
    let stmts = vec![String::from("s();")];
    assert_eq!(render_entry_point(template, &stmts), Err(KuraError::TemplateMalformed));
}

#[test]
fn render_rejects_output_that_still_holds_the_placeholder() {
    let template = "x\n// <INSERT_PRELUDE_VALUES>\ny\n";
    let stmts = vec![String::from("// <INSERT_PRELUDE_VALUES>")];
    assert_eq!(render_entry_point(template, &stmts), Err(KuraError::TemplateMalformed));
}
