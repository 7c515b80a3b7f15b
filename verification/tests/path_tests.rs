use cargo_apk::manifest::{ArtifactIdentity, ArtifactKind, ManifestDescriptor};
use cargo_apk::package::build_package_config;
use cargo_apk::paths::{apk_build_dir, join_path, push_deps_dir, resolve_config_dir, simplified};
use cargo_apk::text::{trimmed, underscored};

fn blank_manifest() -> ManifestDescriptor {
    ManifestDescriptor {
        package: String::new(),
        label: String::new(),
        version_name: None,
        version_code: None,
        min_sdk_version: None,
        target_sdk_version: None,
        debuggable: None,
        exported: None,
        intent_filters: Vec::new(),
        meta_data: Vec::new(),
    }
}

#[test]
fn joining_inserts_a_single_separator() {
    assert_eq!(join_path("a", "b"), "a/b");
    assert_eq!(join_path("a/", "b"), "a/b");
    assert_eq!(join_path("a", "/abs"), "/abs");
    assert_eq!(join_path("", "b"), "/b");
}

#[test]
fn plain_paths_come_back_from_normalization_unchanged() {
    assert_eq!(simplified("/home/dev/project"), "/home/dev/project");
}

#[test]
fn trimming_strips_surrounding_whitespace_only() {
    assert_eq!(trimmed(" 42\n"), "42");
    assert_eq!(trimmed("   \t\r\n"), "");
    assert_eq!(trimmed("x"), "x");
    assert_eq!(trimmed("a b"), "a b");
    assert_eq!(trimmed(""), "");
}

#[test]
fn hyphens_become_underscores() {
    assert_eq!(underscored("foo-bar-baz"), "foo_bar_baz");
    assert_eq!(underscored("plain"), "plain");
    assert_eq!(underscored(""), "");
}

#[test]
fn configured_directories_resolve_against_the_crate_directory() {
    let r = resolve_config_dir("/proj", &Some("assets".to_string()));
    assert_eq!(r, Some("/proj/assets".to_string()));
    assert_eq!(resolve_config_dir("/proj", &None), None);
}

#[test]
fn the_session_build_directory_nests_profile_and_package_steps() {
    assert_eq!(apk_build_dir("/proj/target", "debug"), "/proj/target/debug/apk");
}

#[test]
fn the_deps_directory_is_appended_to_the_search_paths() {
    let mut paths = vec!["/toolchain/sysroot/lib".to_string()];
    push_deps_dir(&mut paths, "/proj/target/aarch64-linux-android/debug");
    assert_eq!(
        paths,
        vec![
            "/toolchain/sysroot/lib".to_string(),
            "/proj/target/aarch64-linux-android/debug/deps".to_string(),
        ]
    );
}

#[test]
fn the_package_config_collects_every_resolved_input() {
    let artifact = ArtifactIdentity { name: "demo".to_string(), kind: ArtifactKind::Example };
    let c = build_package_config(
        "/proj/target/debug/apk",
        &artifact,
        blank_manifest(),
        &None,
        &Some("assets".to_string()),
        &None,
        &Some("jni-libs".to_string()),
        "/proj",
        true,
    );
    assert_eq!(c.build_dir, "/proj/target/debug/apk/examples");
    assert_eq!(c.apk_name, "demo");
    assert_eq!(c.assets, Some("/proj/assets".to_string()));
    assert_eq!(c.resources, None);
    assert_eq!(c.runtime_libs, Some("/proj/jni-libs".to_string()));
    assert!(c.disable_aapt_compression);
}

#[test]
fn a_configured_package_name_wins_over_the_artifact_name() {
    let artifact = ArtifactIdentity { name: "demo".to_string(), kind: ArtifactKind::Bin };
    let c = build_package_config(
        "/proj/target/release/apk",
        &artifact,
        blank_manifest(),
        &Some("shipping-name".to_string()),
        &None,
        &None,
        &None,
        "/proj",
        false,
    );
    assert_eq!(c.build_dir, "/proj/target/release/apk/");
    assert_eq!(c.apk_name, "shipping-name");
    assert!(!c.disable_aapt_compression);
}
