//! Creating files and folders without asking whether they exist.

use vstd::prelude::*;

verus! {

/// What is answered once a folder has been created.
pub const FOLDER_CREATED: &'static str = "Folder created";

/// What is answered once a file has been created.
pub const FILE_CREATED: &'static str = "File created";

} // verus!
