use vstd::prelude::*;

verus! {

/// A named build configuration: it controls the debuggable default, the
/// signing-key source and the directory artifacts are built into.
#[derive(Clone, Debug, PartialEq, Eq)]
pub enum Profile {
    Dev,
    Release,
    Custom(String),
}

impl Profile {
    /// Whether this is the development profile.
    pub open spec fn spec_is_dev(&self) -> bool {
        self is Dev
    }

    pub fn is_dev(&self) -> (r: bool)
        ensures
            r == self.spec_is_dev(),
    {
        matches!(self, Profile::Dev)
    }

    /// The profile's name, as used for signing configuration and for the
    /// profile-keyed environment variables.
    pub open spec fn spec_name(&self) -> Seq<char> {
        match self {
            Profile::Dev => "dev"@,
            Profile::Release => "release"@,
            Profile::Custom(c) => c@,
        }
    }

    pub fn name(&self) -> (r: String)
        ensures
            r@ == self.spec_name(),
    {
        match self {
            Profile::Dev => "dev".to_owned(),
            Profile::Release => "release".to_owned(),
            Profile::Custom(c) => c.clone(),
        }
    }

    /// The directory component under the build output root that this
    /// profile's artifacts land in: the development profile builds into
    /// `debug`, every other profile into a directory of its own name.
    pub open spec fn spec_dir_name(&self) -> Seq<char> {
        match self {
            Profile::Dev => "debug"@,
            Profile::Release => "release"@,
            Profile::Custom(c) => c@,
        }
    }

    pub fn dir_name(&self) -> (r: String)
        ensures
            r@ == self.spec_dir_name(),
    {
        match self {
            Profile::Dev => "debug".to_owned(),
            Profile::Release => "release".to_owned(),
            Profile::Custom(c) => c.clone(),
        }
    }
}

} // verus!
