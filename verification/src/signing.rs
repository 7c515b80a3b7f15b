use vstd::prelude::*;
use crate::paths::{join_path, spec_join};
use crate::profile::Profile;
use crate::text::{spec_underscored, to_uppercase, underscored, upper_of};

verus! {

/// A signing credential: a keystore path and its password. Both are
/// always present — there is no partially specified signing key.
#[derive(Clone, Debug, PartialEq, Eq)]
pub struct SigningKey {
    pub path: String,
    pub password: String,
}

/// A per-profile signing entry from the build configuration: a keystore
/// path relative to the source manifest's directory, and its password.
#[derive(Clone, Debug, PartialEq, Eq)]
pub struct ConfiguredSigning {
    pub path: String,
    pub keystore_password: String,
}

/// What the resolver decided: one usable key, or a failure naming the
/// profile.
#[derive(Clone, Debug, PartialEq, Eq)]
pub enum KeyDecision {
    /// Use the key from the environment; `password_defaulted` records
    /// that the password fell back to the fixed development default and
    /// a warning is owed.
    EnvKey { key: SigningKey, password_defaulted: bool },
    /// Use the key configured for this profile, its path resolved
    /// against the source manifest's directory.
    ConfiguredKey { key: SigningKey },
    /// Request the platform-managed debug key from its provider.
    PlatformDebugKey,
    /// No usable key: fail naming the offending profile.
    MissingReleaseKey { profile: String },
}

/// The fixed, publicly known password of platform-managed development
/// keystores.
pub fn default_dev_password() -> (r: String)
    ensures
        r@ == "android"@,
{
    "android".to_owned()
}

/// Decide the signing key for one build, first match wins:
/// 1. path and password both in the environment: use them verbatim;
/// 2. only the path, development profile: use it with the fixed default
///    password, warning owed;
/// 3. only the path, any other profile: fail — a release key must come
///    wholly or not at all from the environment;
/// 4. no environment path, a configured entry: use it, path resolved
///    against the source manifest's directory;
/// 5. nothing configured, development profile: the platform debug key;
/// 6. otherwise fail, naming the profile.
pub fn resolve_signing_key(
    profile: &Profile,
    env_path: Option<String>,
    env_password: Option<String>,
    configured: Option<&ConfiguredSigning>,
    crate_dir: &str,
) -> (d: KeyDecision)
    ensures
        env_path is Some && env_password is Some ==> (d matches KeyDecision::EnvKey {
            key,
            password_defaulted,
        } && key.path == env_path->Some_0 && key.password == env_password->Some_0
            && !password_defaulted),
        env_path is Some && env_password is None && profile.spec_is_dev() ==> (d
            matches KeyDecision::EnvKey { key, password_defaulted } && key.path
            == env_path->Some_0 && key.password@ == "android"@ && password_defaulted),
        env_path is Some && env_password is None && !profile.spec_is_dev() ==> (d
            matches KeyDecision::MissingReleaseKey { profile: p } && p@ == profile.spec_name()),
        env_path is None && configured is Some ==> (d matches KeyDecision::ConfiguredKey { key }
            && key.path@ == spec_join(crate_dir@, configured->Some_0.path@) && key.password
            == configured->Some_0.keystore_password),
        env_path is None && configured is None && profile.spec_is_dev() ==> d
            is PlatformDebugKey,
        env_path is None && configured is None && !profile.spec_is_dev() ==> (d
            matches KeyDecision::MissingReleaseKey { profile: p } && p@ == profile.spec_name()),
{
    let is_dev = profile.is_dev();
    match (env_path, env_password) {
        (Some(path), Some(password)) => KeyDecision::EnvKey {
            key: SigningKey { path, password },
            password_defaulted: false,
        },
        (Some(path), None) => {
            if is_dev {
                KeyDecision::EnvKey {
                    key: SigningKey { path, password: default_dev_password() },
                    password_defaulted: true,
                }
            } else {
                KeyDecision::MissingReleaseKey { profile: profile.name() }
            }
        },
        (None, _) => {
            match configured {
                Some(entry) => KeyDecision::ConfiguredKey {
                    key: SigningKey {
                        path: join_path(crate_dir, entry.path.as_str()),
                        password: entry.keystore_password.clone(),
                    },
                },
                None => {
                    if is_dev {
                        KeyDecision::PlatformDebugKey
                    } else {
                        KeyDecision::MissingReleaseKey { profile: profile.name() }
                    }
                },
            }
        },
    }
}

/// The names of the two environment variables that may carry the signing
/// key for a profile: the profile's name uppercased with hyphens replaced
/// by underscores, framed by a fixed prefix and suffix; the password
/// variable is the path variable's name with a further suffix.
pub fn keystore_env_names(profile: &Profile) -> (r: (String, String))
    ensures
        r.0@ == "CARGO_APK_"@ + spec_underscored(upper_of(profile.spec_name())) + "_KEYSTORE"@,
        r.1@ == r.0@ + "_PASSWORD"@,
{
    let name = profile.name();
    let upper = to_uppercase(name.as_str());
    let stem = underscored(upper.as_str());
    let mut path_var = "CARGO_APK_".to_owned();
    path_var.append(stem.as_str());
    path_var.append("_KEYSTORE");
    let mut password_var = path_var.clone();
    password_var.append("_PASSWORD");
    (path_var, password_var)
}

} // verus!
