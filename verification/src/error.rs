use vstd::prelude::*;

verus! {

/// Fatal conditions surfaced by the build core. Each carries what the
/// caller needs to report it; rendering is left to the caller.
#[derive(Clone, Debug, PartialEq, Eq)]
pub enum Error {
    /// A field was declared inherited from the workspace, but no workspace
    /// manifest is available.
    InheritanceMissingWorkspace,
    /// The workspace manifest lacks the named field that a package field
    /// inherits from.
    WorkspaceMissingInheritedField(String),
    /// A field was declared with `workspace = false`, which inherits
    /// nothing and is a configuration contradiction.
    InheritedFalse,
    /// A requested compilation target triple is not one of the supported
    /// architectures.
    UnsupportedTarget(String),
}

} // verus!
