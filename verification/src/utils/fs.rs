//! Finding the binaries among the files of a build directory.

use crate::models::artifact::{Artifact, ArtifactView};
use crate::views::views;
use vstd::prelude::*;

verus! {

/// One entry of a directory, as far as the search for binaries looks at it.
#[derive(Clone, Debug, PartialEq, Eq)]
pub struct FoundFile {
    /// The path of the entry.
    pub path: String,
    /// The file name of the entry.
    pub name: String,
    /// The extension of the file name, if it has one.
    pub extension: Option<String>,
    /// The size in bytes, if it could be read.
    pub size: Option<u64>,
}

/// A [`FoundFile`] as a mathematical value.
pub struct FoundFileView {
    pub path: Seq<char>,
    pub name: Seq<char>,
    pub extension: Option<Seq<char>>,
    pub size: Option<u64>,
}

impl View for FoundFile {
    type V = FoundFileView;

    open spec fn view(&self) -> FoundFileView {
        FoundFileView {
            path: self.path@,
            name: self.name@,
            extension: match self.extension {
                Some(text) => Some(text@),
                None => None,
            },
            size: self.size,
        }
    }
}

/// Whether a file counts as a binary: its extension is `bin`.
pub open spec fn is_bin(file: FoundFileView) -> bool {
    file.extension == Some("bin"@)
}

/// The artifact that a binary is listed as. A size that could not be read
/// is listed as zero.
pub open spec fn artifact_of(file: FoundFileView) -> ArtifactView {
    ArtifactView {
        name: file.name,
        path: file.path,
        size_bytes: match file.size {
            Some(size) => size,
            None => 0,
        },
    }
}

/// The binaries among `files`, in their order, each as an artifact.
pub open spec fn bins(files: Seq<FoundFileView>) -> Seq<ArtifactView>
    decreases files.len(),
{
    if files.len() == 0 {
        Seq::empty()
    } else if is_bin(files.last()) {
        bins(files.drop_last()).push(artifact_of(files.last()))
    } else {
        bins(files.drop_last())
    }
}

/// Lists the binaries among the entries of a build directory.
pub fn find_bins(files: Vec<FoundFile>) -> (artifacts: Vec<Artifact>)
    ensures
        views(artifacts@) == bins(views(files@)),
{
    let bin = String::from_str("bin");
    let ghost found = files@;
    let mut artifacts: Vec<Artifact> = Vec::new();
    assert(views(found.take(0)) =~= Seq::<FoundFileView>::empty());
    for file in iter: files
        invariant
            bin@ == "bin"@,
            iter.seq() == found,
            views(artifacts@) == bins(views(found.take(iter.index() as int))),
    {
        let ghost seen = views(found.take(iter.index() as int));
        let ghost next = views(found.take(iter.index() + 1));
        assert(next.drop_last() =~= seen);
        assert(next.last() == file@);
        let FoundFile { path, name, extension, size } = file;
        let wanted = match extension {
            Some(text) => text == bin,
            None => false,
        };
        if wanted {
            let size_bytes = match size {
                Some(size) => size,
                None => 0,
            };
            let ghost listed = views(artifacts@);
            let artifact = Artifact { name, path, size_bytes };
            artifacts.push(artifact);
            assert(views(artifacts@) =~= listed.push(artifact_of(file@)));
        }
    }
    assert(found.take(found.len() as int) =~= found);
    artifacts
}

} // verus!
