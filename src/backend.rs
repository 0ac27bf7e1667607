//! Parameter records of the three back-end operations, and the one call
//! that a command line resolves to.
use vstd::prelude::*;

verus! {

/// Parameters of the back-end that builds an image from a directory tree.
#[derive(Clone, Debug, PartialEq, Eq)]
pub struct PackArgs {
    pub source_path: String,
    /// When absent, the back-end picks a name derived from `source_path`.
    pub image_path: Option<String>,
}

/// Parameters of the back-end that prints an image's directory tree.
#[derive(Clone, Debug, PartialEq, Eq)]
pub struct TreeArgs {
    pub image_path: String,
}

/// Parameters of the back-end that extracts an image.
#[derive(Clone, Debug, PartialEq, Eq)]
pub struct UnpackArgs {
    pub image_path: String,
    /// When absent, the back-end picks a directory derived from `image_path`.
    pub path: Option<String>,
}

/// One invocation of one back-end, with its parameters.
#[derive(Clone, Debug, PartialEq, Eq)]
pub enum BackendCall {
    Pack(PackArgs),
    Tree(TreeArgs),
    Unpack(UnpackArgs),
}

} // verus!
