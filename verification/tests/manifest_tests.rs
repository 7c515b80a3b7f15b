use cargo_apk::error::Error;
use cargo_apk::manifest::{
    apply_defaults, min_sdk_version, resolve_package_version, set_version, ArtifactIdentity,
    ArtifactKind, InheritableVersion, IntentFilter, ManifestDescriptor, MetaData, WorkspacePackage,
    WorkspaceRoot, WorkspaceTable,
};

fn blank_manifest() -> ManifestDescriptor {
    ManifestDescriptor {
        package: String::new(),
        label: String::new(),
        version_name: None,
        version_code: None,
        min_sdk_version: None,
        target_sdk_version: None,
        debuggable: None,
        exported: None,
        intent_filters: Vec::new(),
        meta_data: Vec::new(),
    }
}

fn lib_artifact(name: &str) -> ArtifactIdentity {
    ArtifactIdentity { name: name.to_string(), kind: ArtifactKind::Lib }
}

#[test]
fn defaults_fill_every_unset_field() {
    let mut m = blank_manifest();
    apply_defaults(&mut m, &lib_artifact("foo-bar"), 33, true);
    assert_eq!(m.package, "rust.foo_bar");
    assert_eq!(m.label, "foo-bar");
    assert_eq!(m.target_sdk_version, Some(33));
    assert_eq!(m.debuggable, Some(true));
    assert_eq!(m.exported, Some(true));
    assert_eq!(m.meta_data.len(), 1);
    assert_eq!(m.meta_data[0].name, "android.app.lib_name");
    assert_eq!(m.meta_data[0].value, "foo_bar");
    assert_eq!(m.intent_filters.len(), 1);
    assert_eq!(m.intent_filters[0].actions, vec!["android.intent.action.MAIN".to_string()]);
    assert_eq!(
        m.intent_filters[0].categories,
        vec!["android.intent.category.LAUNCHER".to_string()]
    );
}

#[test]
fn example_artifacts_get_their_own_namespace() {
    let mut m = blank_manifest();
    let artifact = ArtifactIdentity { name: "demo-app".to_string(), kind: ArtifactKind::Example };
    apply_defaults(&mut m, &artifact, 30, false);
    assert_eq!(m.package, "rust.example.demo_app");
    assert_eq!(m.debuggable, Some(false));
    assert_eq!(artifact.build_subdir(), "examples");
    assert_eq!(lib_artifact("x").build_subdir(), "");
}

#[test]
fn explicit_values_are_never_overwritten() {
    let mut m = blank_manifest();
    m.package = "com.custom.id".to_string();
    m.label = "Custom".to_string();
    m.debuggable = Some(false);
    m.exported = Some(false);
    m.target_sdk_version = Some(34);
    apply_defaults(&mut m, &lib_artifact("foo"), 33, true);
    assert_eq!(m.package, "com.custom.id");
    assert_eq!(m.label, "Custom");
    assert_eq!(m.debuggable, Some(false));
    assert_eq!(m.exported, Some(false));
    assert_eq!(m.target_sdk_version, Some(34));
}

#[test]
fn second_defaulting_pass_changes_no_defaulted_field() {
    let mut m = blank_manifest();
    let artifact = lib_artifact("foo-bar");
    apply_defaults(&mut m, &artifact, 33, true);
    let once = m.clone();
    apply_defaults(&mut m, &artifact, 33, true);
    assert_eq!(m.package, once.package);
    assert_eq!(m.label, once.label);
    assert_eq!(m.target_sdk_version, once.target_sdk_version);
    assert_eq!(m.debuggable, once.debuggable);
    assert_eq!(m.exported, once.exported);
    assert_eq!(m.intent_filters, once.intent_filters);
    // The native-library entry is appended by every pass by design.
    assert_eq!(m.meta_data.len(), once.meta_data.len() + 1);
}

#[test]
fn exported_defaults_to_true_from_platform_31() {
    let mut recent = blank_manifest();
    apply_defaults(&mut recent, &lib_artifact("a"), 31, false);
    assert_eq!(recent.exported, Some(true));

    let mut older = blank_manifest();
    apply_defaults(&mut older, &lib_artifact("a"), 30, false);
    assert_eq!(older.exported, None);
}

#[test]
fn existing_main_filter_is_not_duplicated() {
    let mut m = blank_manifest();
    m.intent_filters.push(IntentFilter {
        actions: vec!["android.intent.action.MAIN".to_string()],
        categories: Vec::new(),
        data: Vec::new(),
    });
    apply_defaults(&mut m, &lib_artifact("a"), 33, false);
    assert_eq!(m.intent_filters.len(), 1);
}

#[test]
fn minimum_platform_version_has_a_floor_of_23() {
    assert_eq!(min_sdk_version(Some(19), 21), 23);
    assert_eq!(min_sdk_version(Some(30), 21), 30);
    assert_eq!(min_sdk_version(None, 21), 23);
    assert_eq!(min_sdk_version(None, 33), 33);
    assert_eq!(min_sdk_version(Some(23), 21), 23);
}

#[test]
fn set_version_records_both_fields() {
    let mut m = blank_manifest();
    set_version(&mut m, "1.2.3".to_string(), 10203);
    assert_eq!(m.version_name, Some("1.2.3".to_string()));
    assert_eq!(m.version_code, Some(10203));
}

#[test]
fn metadata_entries_carry_over() {
    let mut m = blank_manifest();
    m.meta_data.push(MetaData { name: "custom".to_string(), value: "kept".to_string() });
    apply_defaults(&mut m, &lib_artifact("x"), 33, false);
    assert_eq!(m.meta_data.len(), 2);
    assert_eq!(m.meta_data[0].name, "custom");
    assert_eq!(m.meta_data[1].name, "android.app.lib_name");
}

#[test]
fn version_given_in_place_is_used_as_is() {
    let v = InheritableVersion::Value("0.4.0".to_string());
    assert_eq!(resolve_package_version(&v, &None), Ok("0.4.0".to_string()));
}

#[test]
fn version_inherited_false_is_a_contradiction() {
    let v = InheritableVersion::Inherited { workspace: false };
    assert_eq!(resolve_package_version(&v, &None), Err(Error::InheritedFalse));
}

#[test]
fn version_inherited_without_workspace_manifest_fails() {
    let v = InheritableVersion::Inherited { workspace: true };
    assert_eq!(resolve_package_version(&v, &None), Err(Error::InheritanceMissingWorkspace));
}

#[test]
fn version_inherited_without_package_table_fails() {
    let v = InheritableVersion::Inherited { workspace: true };
    let root = WorkspaceRoot { workspace: Some(WorkspaceTable { package: None }) };
    assert_eq!(
        resolve_package_version(&v, &Some(root)),
        Err(Error::WorkspaceMissingInheritedField("package".to_string()))
    );
}

#[test]
fn version_inherited_without_version_field_fails() {
    let v = InheritableVersion::Inherited { workspace: true };
    let root = WorkspaceRoot {
        workspace: Some(WorkspaceTable { package: Some(WorkspacePackage { version: None }) }),
    };
    assert_eq!(
        resolve_package_version(&v, &Some(root)),
        Err(Error::WorkspaceMissingInheritedField("package.version".to_string()))
    );
}

#[test]
fn version_inherited_from_workspace_succeeds() {
    let v = InheritableVersion::Inherited { workspace: true };
    let root = WorkspaceRoot {
        workspace: Some(WorkspaceTable {
            package: Some(WorkspacePackage { version: Some("2.0.0".to_string()) }),
        }),
    };
    assert_eq!(resolve_package_version(&v, &Some(root)), Ok("2.0.0".to_string()));
}
