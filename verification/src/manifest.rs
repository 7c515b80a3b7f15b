use vstd::prelude::*;
use crate::error::Error;
use crate::text::{spec_underscored, str_eq, underscored};

verus! {

/// The kind of compiled unit a package is built from.
#[derive(Clone, Copy, PartialEq, Eq, Structural, Debug)]
pub enum ArtifactKind {
    Lib,
    Bin,
    Example,
}

/// A compiled unit's identity: its name and kind. It determines the
/// default package id, the display label and the native-library symbol
/// name embedded in the manifest.
#[derive(Clone, Debug, PartialEq, Eq)]
pub struct ArtifactIdentity {
    pub name: String,
    pub kind: ArtifactKind,
}

/// Mathematical image of an artifact identity.
pub struct ArtifactView {
    pub name: Seq<char>,
    pub kind: ArtifactKind,
}

impl View for ArtifactIdentity {
    type V = ArtifactView;

    open spec fn view(&self) -> ArtifactView {
        ArtifactView { name: self.name@, kind: self.kind }
    }
}

/// The subdirectory of the session build directory that an artifact's
/// package is assembled in: examples build apart from libraries and
/// binaries.
pub open spec fn spec_build_subdir(kind: ArtifactKind) -> Seq<char> {
    match kind {
        ArtifactKind::Example => "examples"@,
        _ => ""@,
    }
}

impl ArtifactIdentity {
    pub fn build_subdir(&self) -> (r: &'static str)
        ensures
            r@ == spec_build_subdir(self.kind),
    {
        match self.kind {
            ArtifactKind::Example => "examples",
            _ => "",
        }
    }
}

/// One intent filter of the entry-point activity.
#[derive(Clone, Debug, PartialEq, Eq)]
pub struct IntentFilter {
    pub actions: Vec<String>,
    pub categories: Vec<String>,
    pub data: Vec<String>,
}

/// Mathematical image of an intent filter.
pub struct IntentFilterView {
    pub actions: Seq<Seq<char>>,
    pub categories: Seq<Seq<char>>,
    pub data: Seq<Seq<char>>,
}

impl View for IntentFilter {
    type V = IntentFilterView;

    open spec fn view(&self) -> IntentFilterView {
        IntentFilterView {
            actions: self.actions.deep_view(),
            categories: self.categories.deep_view(),
            data: self.data.deep_view(),
        }
    }
}

/// One key-value metadata entry of the entry-point activity.
#[derive(Clone, Debug, PartialEq, Eq)]
pub struct MetaData {
    pub name: String,
    pub value: String,
}

/// Mathematical image of a metadata entry.
pub struct MetaDataView {
    pub name: Seq<char>,
    pub value: Seq<char>,
}

impl View for MetaData {
    type V = MetaDataView;

    open spec fn view(&self) -> MetaDataView {
        MetaDataView { name: self.name@, value: self.value@ }
    }
}

/// In-memory package metadata, mutated in place by defaulting exactly
/// once per build artifact and then frozen for the packaging
/// collaborator. An empty package id or label counts as unset.
#[derive(Clone, Debug, PartialEq, Eq)]
pub struct ManifestDescriptor {
    pub package: String,
    pub label: String,
    pub version_name: Option<String>,
    pub version_code: Option<u32>,
    pub min_sdk_version: Option<u32>,
    pub target_sdk_version: Option<u32>,
    pub debuggable: Option<bool>,
    pub exported: Option<bool>,
    pub intent_filters: Vec<IntentFilter>,
    pub meta_data: Vec<MetaData>,
}

/// Mathematical image of a package descriptor.
pub struct ManifestView {
    pub package: Seq<char>,
    pub label: Seq<char>,
    pub version_name: Option<Seq<char>>,
    pub version_code: Option<u32>,
    pub min_sdk_version: Option<u32>,
    pub target_sdk_version: Option<u32>,
    pub debuggable: Option<bool>,
    pub exported: Option<bool>,
    pub intent_filters: Seq<IntentFilterView>,
    pub meta_data: Seq<MetaDataView>,
}

impl View for ManifestDescriptor {
    type V = ManifestView;

    open spec fn view(&self) -> ManifestView {
        ManifestView {
            package: self.package@,
            label: self.label@,
            version_name: match self.version_name {
                Some(v) => Some(v@),
                None => None,
            },
            version_code: self.version_code,
            min_sdk_version: self.min_sdk_version,
            target_sdk_version: self.target_sdk_version,
            debuggable: self.debuggable,
            exported: self.exported,
            intent_filters: self.intent_filters@.map_values(|f: IntentFilter| f@),
            meta_data: self.meta_data@.map_values(|m: MetaData| m@),
        }
    }
}

/// The platform's standard entry-point action.
pub open spec fn spec_main_action() -> Seq<char> {
    "android.intent.action.MAIN"@
}

/// Whether one filter declares the standard entry-point action.
pub open spec fn spec_filter_has_main(f: IntentFilterView) -> bool {
    exists|j: int| 0 <= j < f.actions.len() && f.actions[j] == spec_main_action()
}

/// Whether any declared filter makes the activity launchable.
pub open spec fn spec_has_main_action(filters: Seq<IntentFilterView>) -> bool {
    exists|i: int| 0 <= i < filters.len() && spec_filter_has_main(filters[i])
}

/// The filter synthesized when none declares the entry-point action.
pub open spec fn spec_main_intent_filter() -> IntentFilterView {
    IntentFilterView {
        actions: seq![spec_main_action()],
        categories: seq!["android.intent.category.LAUNCHER"@],
        data: Seq::empty(),
    }
}

/// The default package id: a fixed namespace prefix — a longer one for
/// examples — combined with the artifact name, hyphens already replaced.
pub open spec fn spec_default_package_id(kind: ArtifactKind, underscored_name: Seq<char>) -> Seq<
    char,
> {
    match kind {
        ArtifactKind::Example => "rust.example."@ + underscored_name,
        _ => "rust."@ + underscored_name,
    }
}

/// The metadata entry naming the native library to load.
pub open spec fn spec_lib_name_entry(underscored_name: Seq<char>) -> MetaDataView {
    MetaDataView { name: "android.app.lib_name"@, value: underscored_name }
}

/// The descriptor after one defaulting pass for `artifact`: every rule
/// fills its field only if still unset, except the native-library
/// metadata entry, which is appended unconditionally.
pub open spec fn spec_defaulted(
    m: ManifestView,
    artifact: ArtifactView,
    toolchain_target_sdk: u32,
    profile_is_dev: bool,
) -> ManifestView {
    let target = match m.target_sdk_version {
        Some(t) => t,
        None => toolchain_target_sdk,
    };
    ManifestView {
        package: if m.package.len() == 0 {
            spec_default_package_id(artifact.kind, spec_underscored(artifact.name))
        } else {
            m.package
        },
        label: if m.label.len() == 0 {
            artifact.name
        } else {
            m.label
        },
        version_name: m.version_name,
        version_code: m.version_code,
        min_sdk_version: m.min_sdk_version,
        target_sdk_version: Some(target),
        debuggable: match m.debuggable {
            Some(d) => Some(d),
            None => Some(profile_is_dev),
        },
        exported: if target >= 31 && m.exported is None {
            Some(true)
        } else {
            m.exported
        },
        intent_filters: if spec_has_main_action(m.intent_filters) {
            m.intent_filters
        } else {
            m.intent_filters.push(spec_main_intent_filter())
        },
        meta_data: m.meta_data.push(spec_lib_name_entry(spec_underscored(artifact.name))),
    }
}

/// Whether any filter of `filters` declares the entry-point action.
pub fn has_main_action(filters: &Vec<IntentFilter>) -> (r: bool)
    ensures
        r == spec_has_main_action(filters@.map_values(|f: IntentFilter| f@)),
{
    let ghost fv = filters@.map_values(|f: IntentFilter| f@);
    let mut i: usize = 0;
    while i < filters.len()
        invariant
            i <= filters.len(),
            fv == filters@.map_values(|f: IntentFilter| f@),
            forall|k: int| 0 <= k < i ==> !spec_filter_has_main(fv[k]),
        decreases filters.len() - i,
    {
        let actions = &filters[i].actions;
        let mut j: usize = 0;
        while j < actions.len()
            invariant
                j <= actions.len(),
                i < filters.len(),
                fv == filters@.map_values(|f: IntentFilter| f@),
                actions.deep_view() == fv[i as int].actions,
                forall|k: int| 0 <= k < j ==> fv[i as int].actions[k] != spec_main_action(),
            decreases actions.len() - j,
        {
            if str_eq(actions[j].as_str(), "android.intent.action.MAIN") {
                proof {
                    assert(fv[i as int].actions[j as int] == actions@[j as int]@);
                    assert(spec_filter_has_main(fv[i as int]));
                }
                return true;
            }
            proof {
                assert(fv[i as int].actions[j as int] == actions@[j as int]@);
            }
            j += 1;
        }
        proof {
            assert(!spec_filter_has_main(fv[i as int]));
        }
        i += 1;
    }
    false
}

/// One defaulting pass: fill the package id, label, target platform
/// version, entry-point filter, exported flag and debuggable flag if
/// still unset, and append the native-library metadata entry.
pub fn apply_defaults(
    m: &mut ManifestDescriptor,
    artifact: &ArtifactIdentity,
    toolchain_target_sdk: u32,
    profile_is_dev: bool,
)
    ensures
        final(m)@ == spec_defaulted(old(m)@, artifact@, toolchain_target_sdk, profile_is_dev),
{
    let ghost m0 = m@;
    let name_underscored = underscored(artifact.name.as_str());

    if m.package.as_str().is_empty() {
        let mut id = match artifact.kind {
            ArtifactKind::Example => "rust.example.".to_owned(),
            _ => "rust.".to_owned(),
        };
        id.append(name_underscored.as_str());
        m.package = id;
    }

    if m.label.as_str().is_empty() {
        m.label = artifact.name.clone();
    }

    let target = match m.target_sdk_version {
        Some(t) => t,
        None => toolchain_target_sdk,
    };
    m.target_sdk_version = Some(target);

    if m.debuggable.is_none() {
        m.debuggable = Some(profile_is_dev);
    }

    if target >= 31 && m.exported.is_none() {
        m.exported = Some(true);
    }

    if !has_main_action(&m.intent_filters) {
        let filter = IntentFilter {
            actions: vec!["android.intent.action.MAIN".to_owned()],
            categories: vec!["android.intent.category.LAUNCHER".to_owned()],
            data: Vec::new(),
        };
        proof {
            assert(filter@.actions =~= spec_main_intent_filter().actions);
            assert(filter@.categories =~= spec_main_intent_filter().categories);
            assert(filter@.data =~= spec_main_intent_filter().data);
        }
        m.intent_filters.push(filter);
        proof {
            assert(m.intent_filters@.map_values(|f: IntentFilter| f@) =~= m0.intent_filters.push(
                spec_main_intent_filter(),
            ));
        }
    }

    m.meta_data.push(
        MetaData { name: "android.app.lib_name".to_owned(), value: name_underscored },
    );
    proof {
        assert(m.meta_data@.map_values(|md: MetaData| md@) =~= m0.meta_data.push(
            spec_lib_name_entry(spec_underscored(artifact.name@)),
        ));
    }
}

/// A second defaulting pass changes no defaulted field: every rule fills
/// a field only when it is still unset, and the first pass leaves none of
/// them unset. The native-library metadata entry is appended by every
/// pass by design and is the one exception.
pub proof fn lemma_defaulting_idempotent(
    m: ManifestView,
    artifact: ArtifactView,
    toolchain_target_sdk: u32,
    profile_is_dev: bool,
)
    ensures
        ({
            let once = spec_defaulted(m, artifact, toolchain_target_sdk, profile_is_dev);
            let twice = spec_defaulted(once, artifact, toolchain_target_sdk, profile_is_dev);
            &&& twice.package == once.package
            &&& twice.label == once.label
            &&& twice.version_name == once.version_name
            &&& twice.version_code == once.version_code
            &&& twice.min_sdk_version == once.min_sdk_version
            &&& twice.target_sdk_version == once.target_sdk_version
            &&& twice.debuggable == once.debuggable
            &&& twice.exported == once.exported
            &&& twice.intent_filters == once.intent_filters
        }),
{
    let once = spec_defaulted(m, artifact, toolchain_target_sdk, profile_is_dev);
    if m.package.len() == 0 {
        reveal_strlit("rust.");
        reveal_strlit("rust.example.");
        assert(once.package.len() > 0);
    }
    if once.label.len() == 0 {
        assert(once.label == artifact.name);
    }
    if !spec_has_main_action(m.intent_filters) {
        let pushed = m.intent_filters.push(spec_main_intent_filter());
        assert(pushed[pushed.len() - 1].actions[0] == spec_main_action());
        assert(spec_filter_has_main(pushed[pushed.len() - 1]));
        assert(spec_has_main_action(pushed));
    }
}

/// For a resolved target platform version of 31 or above, defaulting
/// turns a still-unset exported flag of the entry point into an explicit
/// `true`, whatever the other fields hold: such platforms refuse to start
/// an application whose entry point is not explicitly exported.
pub proof fn lemma_exported_forced(
    m: ManifestView,
    artifact: ArtifactView,
    toolchain_target_sdk: u32,
    profile_is_dev: bool,
)
    requires
        m.exported is None,
        (match m.target_sdk_version {
            Some(t) => t,
            None => toolchain_target_sdk,
        }) >= 31,
    ensures
        spec_defaulted(m, artifact, toolchain_target_sdk, profile_is_dev).exported == Some(true),
{
}

/// Resolved minimum platform version: an explicitly configured value wins
/// over the toolchain's reported default, and the result never drops
/// below 23, the floor required by the cross-compilation toolchain.
pub open spec fn spec_min_sdk_version(configured: Option<u32>, toolchain_default: u32) -> u32 {
    let base = match configured {
        Some(c) => c,
        None => toolchain_default,
    };
    if base >= 23 {
        base
    } else {
        23
    }
}

/// Minimum platform version for compiler target selection, clamped to a
/// floor of 23 whatever the configuration or the toolchain reported.
pub fn min_sdk_version(configured: Option<u32>, toolchain_default: u32) -> (v: u32)
    ensures
        v == spec_min_sdk_version(configured, toolchain_default),
        v >= 23,
{
    let base = match configured {
        Some(c) => c,
        None => toolchain_default,
    };
    if base >= 23 {
        base
    } else {
        23
    }
}

/// Record the resolved package version in a descriptor that must not have
/// carried one from configuration.
pub fn set_version(m: &mut ManifestDescriptor, version_name: String, version_code: u32)
    requires
        old(m)@.version_name is None,
        old(m)@.version_code is None,
    ensures
        final(m)@ == (ManifestView {
            version_name: Some(version_name@),
            version_code: Some(version_code),
            ..old(m)@
        }),
{
    m.version_name = Some(version_name);
    m.version_code = Some(version_code);
}

/// A package field that is either given in place or inherited from the
/// workspace manifest.
#[derive(Clone, Debug, PartialEq, Eq)]
pub enum InheritableVersion {
    Value(String),
    Inherited { workspace: bool },
}

/// The `[workspace.package]` table of a workspace manifest, reduced to
/// the one field a package version can inherit.
#[derive(Clone, Debug, PartialEq, Eq)]
pub struct WorkspacePackage {
    pub version: Option<String>,
}

/// The `[workspace]` table of a workspace manifest.
#[derive(Clone, Debug, PartialEq, Eq)]
pub struct WorkspaceTable {
    pub package: Option<WorkspacePackage>,
}

/// A workspace manifest: present only when the package belongs to a
/// workspace, and guaranteed by the build front end to carry a
/// `[workspace]` table when it is present.
#[derive(Clone, Debug, PartialEq, Eq)]
pub struct WorkspaceRoot {
    pub workspace: Option<WorkspaceTable>,
}

/// Resolve the package version: a value given in place is used as is; a
/// version inherited from the workspace is looked up there, and every
/// missing link on that path is a distinct configuration error.
pub fn resolve_package_version(
    version: &InheritableVersion,
    workspace_manifest: &Option<WorkspaceRoot>,
) -> (r: Result<String, Error>)
    requires
        version matches InheritableVersion::Inherited { workspace: true } && workspace_manifest
            is Some ==> workspace_manifest->Some_0.workspace is Some,
    ensures
        version matches InheritableVersion::Value(v) ==> r is Ok && r->Ok_0@ == v@,
        version matches InheritableVersion::Inherited { workspace: false } ==> r is Err
            && r->Err_0 is InheritedFalse,
        version matches InheritableVersion::Inherited { workspace: true } ==> {
            let wm = workspace_manifest;
            if wm is None {
                r is Err && r->Err_0 is InheritanceMissingWorkspace
            } else {
                let table = wm->Some_0.workspace->Some_0;
                if table.package is None {
                    r is Err && (r->Err_0 matches Error::WorkspaceMissingInheritedField(f) && f@
                        == "package"@)
                } else if table.package->Some_0.version is None {
                    r is Err && (r->Err_0 matches Error::WorkspaceMissingInheritedField(f) && f@
                        == "package.version"@)
                } else {
                    r is Ok && r->Ok_0@ == table.package->Some_0.version->Some_0@
                }
            }
        },
{
    match version {
        InheritableVersion::Value(v) => Ok(v.clone()),
        InheritableVersion::Inherited { workspace: false } => Err(Error::InheritedFalse),
        InheritableVersion::Inherited { workspace: true } => {
            match workspace_manifest {
                None => Err(Error::InheritanceMissingWorkspace),
                Some(root) => {
                    let table = match &root.workspace {
                        Some(t) => t,
                        None => unreached(),
                    };
                    match &table.package {
                        None => Err(
                            Error::WorkspaceMissingInheritedField("package".to_owned()),
                        ),
                        Some(pkg) => {
                            match &pkg.version {
                                None => Err(
                                    Error::WorkspaceMissingInheritedField(
                                        "package.version".to_owned(),
                                    ),
                                ),
                                Some(v) => Ok(v.clone()),
                            }
                        },
                    }
                },
            }
        },
    }
}

} // verus!
