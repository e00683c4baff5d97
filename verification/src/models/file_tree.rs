//! The tree of files and folders that the explorer shows.

use vstd::prelude::*;

verus! {

/// A file or a folder, with what lies under it.
#[derive(Debug, PartialEq, Eq)]
pub struct FileNode {
    /// The path of the entry.
    pub id: String,
    /// The name of the entry within its folder.
    pub name: String,
    /// `"file"` or `"folder"`.
    pub node_type: String,
    /// The text of a file that could be read as text.
    pub content: Option<String>,
    /// The entries of a folder.
    pub children: Option<Vec<FileNode>>,
    /// The name of the folder that the tree was read from.
    pub folder_name: String,
}

impl FileNode {
    /// Whether the node is one that [`FileNode::folder`] makes.
    pub open spec fn is_folder(&self) -> bool {
        &&& self.node_type@ == "folder"@
        &&& self.content is None
        &&& self.children is Some
    }

    /// Whether the node is one that [`FileNode::file`] makes.
    pub open spec fn is_file(&self) -> bool {
        &&& self.node_type@ == "file"@
        &&& self.children is None
    }

    /// The node of a folder and of what was found in it.
    pub fn folder(id: String, name: String, children: Vec<FileNode>, folder_name: &str) -> (node:
        FileNode)
        ensures
            node.is_folder(),
            node.id == id,
            node.name == name,
            node.children == Some(children),
            node.folder_name@ == folder_name@,
    {
        FileNode {
            id,
            name,
            node_type: String::from_str("folder"),
            content: None,
            children: Some(children),
            folder_name: String::from_str(folder_name),
        }
    }

    /// The node of a file. `content` is its text, where it could be read as
    /// text.
    pub fn file(id: String, name: String, content: Option<String>, folder_name: &str) -> (node:
        FileNode)
        ensures
            node.is_file(),
            node.id == id,
            node.name == name,
            node.content == content,
            node.folder_name@ == folder_name@,
    {
        FileNode {
            id,
            name,
            node_type: String::from_str("file"),
            content,
            children: None,
            folder_name: String::from_str(folder_name),
        }
    }
}

} // verus!
