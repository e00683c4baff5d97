//! Build outputs found on disk.

use vstd::prelude::*;

verus! {

/// A binary that a build left behind.
#[derive(Clone, Debug, PartialEq, Eq)]
pub struct Artifact {
    /// The file name.
    pub name: String,
    /// The path of the file.
    pub path: String,
    /// The size of the file in bytes.
    pub size_bytes: u64,
}

/// An [`Artifact`] as a mathematical value.
pub struct ArtifactView {
    pub name: Seq<char>,
    pub path: Seq<char>,
    pub size_bytes: u64,
}

impl View for Artifact {
    type V = ArtifactView;

    open spec fn view(&self) -> ArtifactView {
        ArtifactView { name: self.name@, path: self.path@, size_bytes: self.size_bytes }
    }
}

} // verus!
