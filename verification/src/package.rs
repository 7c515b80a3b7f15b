use vstd::prelude::*;
use crate::manifest::{spec_build_subdir, ArtifactIdentity, ManifestDescriptor};
use crate::paths::{join_path, resolve_config_dir, simplifies_to, spec_join};

verus! {

/// The finalized inputs to package assembly: where to build, what to
/// call the package, which extra directories to bundle, the frozen
/// descriptor, and the compression switch tied to the build profile.
pub struct PackageConfig {
    pub build_dir: String,
    pub apk_name: String,
    pub assets: Option<String>,
    pub resources: Option<String>,
    pub runtime_libs: Option<String>,
    pub manifest: ManifestDescriptor,
    pub disable_aapt_compression: bool,
}

/// Assemble the package configuration for one artifact: the build
/// directory gains the artifact's own subdirectory, the package name
/// defaults to the artifact's name, each configured bundle directory is
/// resolved against the source manifest's directory and normalized, and
/// compression is disabled exactly for the development profile.
pub fn build_package_config(
    session_build_dir: &str,
    artifact: &ArtifactIdentity,
    manifest: ManifestDescriptor,
    configured_apk_name: &Option<String>,
    assets: &Option<String>,
    resources: &Option<String>,
    runtime_libs: &Option<String>,
    crate_dir: &str,
    profile_is_dev: bool,
) -> (c: PackageConfig)
    ensures
        c.build_dir@ == spec_join(session_build_dir@, spec_build_subdir(artifact@.kind)),
        c.apk_name@ == (match configured_apk_name {
            Some(n) => n@,
            None => artifact@.name,
        }),
        c.assets is Some <==> assets is Some,
        c.assets is Some ==> simplifies_to(
            spec_join(crate_dir@, assets->Some_0@),
            c.assets->Some_0@,
        ),
        c.resources is Some <==> resources is Some,
        c.resources is Some ==> simplifies_to(
            spec_join(crate_dir@, resources->Some_0@),
            c.resources->Some_0@,
        ),
        c.runtime_libs is Some <==> runtime_libs is Some,
        c.runtime_libs is Some ==> simplifies_to(
            spec_join(crate_dir@, runtime_libs->Some_0@),
            c.runtime_libs->Some_0@,
        ),
        c.manifest == manifest,
        c.disable_aapt_compression == profile_is_dev,
{
    let apk_name = match configured_apk_name {
        Some(n) => n.clone(),
        None => artifact.name.clone(),
    };
    PackageConfig {
        build_dir: join_path(session_build_dir, artifact.build_subdir()),
        apk_name,
        assets: resolve_config_dir(crate_dir, assets),
        resources: resolve_config_dir(crate_dir, resources),
        runtime_libs: resolve_config_dir(crate_dir, runtime_libs),
        manifest,
        disable_aapt_compression: profile_is_dev,
    }
}

} // verus!
