//! The file explorer: the tree it shows, and what it checks before it reads,
//! creates, renames or deletes.

use crate::services::text::{join, same_text};
use vstd::prelude::*;

verus! {

/// A file or a folder in the explorer.
#[derive(Debug, PartialEq, Eq)]
pub struct ExplorerNode {
    pub id: String,
    pub name: String,
    pub path: String,
    /// `"file"` or `"folder"`.
    pub node_type: String,
    /// The entries of a folder.
    pub children: Option<Vec<ExplorerNode>>,
}

/// What is answered when the path of a project has no last component to
/// name the project by.
pub const INVALID_PROJECT_PATH: &'static str = "Invalid project path";

/// Whether `node` is a folder that carries the name of the project.
pub open spec fn is_project_folder(node: ExplorerNode, project_name: Seq<char>) -> bool {
    node.node_type@ == "folder"@ && node.name@ == project_name
}

/// `entries` with each folder that carries the name of the project replaced
/// by what it holds. The order is kept.
pub open spec fn lifted(entries: Seq<ExplorerNode>, project_name: Seq<char>) -> Seq<ExplorerNode>
    decreases entries.len(),
{
    if entries.len() == 0 {
        Seq::empty()
    } else {
        let earlier = lifted(entries.drop_last(), project_name);
        let node = entries.last();
        if is_project_folder(node, project_name) {
            match node.children {
                Some(children) => earlier + children@,
                None => earlier,
            }
        } else {
            earlier.push(node)
        }
    }
}

/// The tree that the explorer shows for a project: one folder, named after
/// the project, that holds the entries found under the project's path. An
/// entry that is itself a folder with the project's name is not shown; what
/// it holds is shown in its place.
pub fn project_tree(project_path: String, project_name: String, entries: Vec<ExplorerNode>) -> (tree:
    Vec<ExplorerNode>)
    ensures
        tree@.len() == 1,
        tree@[0].id@ == project_path@,
        tree@[0].name@ == project_name@,
        tree@[0].path@ == project_path@,
        tree@[0].node_type@ == "folder"@,
        tree@[0].children is Some,
        tree@[0].children->0@ == lifted(entries@, project_name@),
{
    let folder = String::from_str("folder");
    let ghost found = entries@;
    let mut shown: Vec<ExplorerNode> = Vec::new();
    assert(found.take(0) =~= Seq::<ExplorerNode>::empty());
    for node in iter: entries
        invariant
            folder@ == "folder"@,
            iter.seq() == found,
            shown@ == lifted(found.take(iter.index() as int), project_name@),
    {
        let ghost seen = found.take(iter.index() as int);
        let ghost next = found.take(iter.index() + 1);
        assert(next.drop_last() =~= seen);
        assert(next.last() == node);
        if node.node_type == folder && node.name == project_name {
            let ExplorerNode { children, .. } = node;
            match children {
                Some(mut held) => {
                    shown.append(&mut held);
                },
                None => {},
            }
        } else {
            shown.push(node);
        }
    }
    assert(found.take(found.len() as int) =~= found);
    let mut tree: Vec<ExplorerNode> = Vec::new();
    tree.push(
        ExplorerNode {
            id: project_path.clone(),
            name: project_name,
            path: project_path,
            node_type: folder,
            children: Some(shown),
        },
    );
    tree
}

/// The node of one entry as it is found on disk. A folder carries what was
/// found in it; a file carries nothing.
pub fn entry_node(path: String, name: String, children: Option<Vec<ExplorerNode>>) -> (node:
    ExplorerNode)
    ensures
        node.id@ == path@,
        node.path@ == path@,
        node.name == name,
        node.children == children,
        node.node_type@ == (if children is Some {
            "folder"@
        } else {
            "file"@
        }),
{
    let node_type = match children {
        Some(_) => String::from_str("folder"),
        None => String::from_str("file"),
    };
    ExplorerNode { id: path.clone(), name, path, node_type, children }
}

/// The error text of a result, as a mathematical value.
pub open spec fn told<T>(result: Result<T, String>) -> Result<T, Seq<char>> {
    match result {
        Ok(value) => Ok(value),
        Err(message) => Err(message@),
    }
}

/// Whether a path may be opened as text: a directory is not, and neither is
/// a file whose extension is `bin`.
pub open spec fn may_read(is_dir: bool, extension: Option<Seq<char>>) -> Result<(), Seq<char>> {
    if is_dir {
        Err("Cannot open a directory"@)
    } else if extension == Some("bin"@) {
        Err("Binary file \u{2013} cannot be opened as text"@)
    } else {
        Ok(())
    }
}

/// Decides whether a path may be opened as text, from whether it is a
/// directory and from its extension.
pub fn read_file_gate(is_dir: bool, extension: Option<&str>) -> (verdict: Result<(), String>)
    ensures
        told(verdict) == may_read(
            is_dir,
            match extension {
                Some(text) => Some(text@),
                None => None,
            },
        ),
{
    if is_dir {
        return Err(String::from_str("Cannot open a directory"));
    }
    match extension {
        Some(text) => {
            if same_text(text, "bin") {
                Err(String::from_str("Binary file \u{2013} cannot be opened as text"))
            } else {
                Ok(())
            }
        },
        None => Ok(()),
    }
}

/// What the explorer can create.
#[derive(Clone, Copy, Debug, PartialEq, Eq, Structural)]
pub enum EntryKind {
    File,
    Folder,
}

/// Whether an entry may be created at a path: not where something exists.
pub open spec fn may_create(kind: EntryKind, exists: bool) -> Result<(), Seq<char>> {
    if !exists {
        Ok(())
    } else {
        match kind {
            EntryKind::File => Err("File already exists"@),
            EntryKind::Folder => Err("Folder already exists"@),
        }
    }
}

/// Decides whether an entry may be created, from whether its path exists.
pub fn create_gate(kind: EntryKind, exists: bool) -> (verdict: Result<(), String>)
    ensures
        told(verdict) == may_create(kind, exists),
{
    if !exists {
        Ok(())
    } else {
        match kind {
            EntryKind::File => Err(String::from_str("File already exists")),
            EntryKind::Folder => Err(String::from_str("Folder already exists")),
        }
    }
}

/// What is answered once an entry has been created at `path`.
pub fn created_message(kind: EntryKind, path: &str) -> (message: String)
    ensures
        message@ == (match kind {
            EntryKind::File => "Created: "@,
            EntryKind::Folder => "Folder created: "@,
        }) + path@,
{
    match kind {
        EntryKind::File => join("Created: ", path),
        EntryKind::Folder => join("Folder created: ", path),
    }
}

/// What is known of a path before it is renamed or deleted.
#[derive(Clone, Copy, Debug, PartialEq, Eq, Structural)]
pub struct PathFacts {
    pub exists: bool,
    pub readonly: bool,
    pub is_symlink: bool,
    pub is_dir: bool,
    /// For a directory: whether it holds nothing.
    pub is_empty: bool,
}

/// How a path is removed.
#[derive(Clone, Copy, Debug, PartialEq, Eq, Structural)]
pub enum DeleteAction {
    /// Remove the file.
    RemoveFile,
    /// Remove the empty directory.
    RemoveEmptyDir,
    /// Remove the directory with all that it holds.
    RemoveDirAll,
}

/// How `path` is to be deleted, or why it is not: it must exist, must not be
/// read-only and must not be a symbolic link.
pub open spec fn deletion(path: Seq<char>, facts: PathFacts) -> Result<DeleteAction, Seq<char>> {
    if !facts.exists {
        Err("Path does not exist: "@ + path)
    } else if facts.readonly {
        Err("Path is read-only"@)
    } else if facts.is_symlink {
        Err("Cannot delete symbolic links through this interface"@)
    } else if !facts.is_dir {
        Ok(DeleteAction::RemoveFile)
    } else if facts.is_empty {
        Ok(DeleteAction::RemoveEmptyDir)
    } else {
        Ok(DeleteAction::RemoveDirAll)
    }
}

/// Decides how a path is deleted, from what is known of it.
pub fn plan_delete(path: &str, facts: PathFacts) -> (plan: Result<DeleteAction, String>)
    ensures
        told(plan) == deletion(path@, facts),
{
    if !facts.exists {
        Err(join("Path does not exist: ", path))
    } else if facts.readonly {
        Err(String::from_str("Path is read-only"))
    } else if facts.is_symlink {
        Err(String::from_str("Cannot delete symbolic links through this interface"))
    } else if !facts.is_dir {
        Ok(DeleteAction::RemoveFile)
    } else if facts.is_empty {
        Ok(DeleteAction::RemoveEmptyDir)
    } else {
        Ok(DeleteAction::RemoveDirAll)
    }
}

/// What is answered when removing failed for the reason `detail`.
pub fn delete_failure(action: DeleteAction, detail: &str) -> (message: String)
    ensures
        message@ == (match action {
            DeleteAction::RemoveFile => "Failed to delete file: "@,
            DeleteAction::RemoveEmptyDir => "Failed to delete directory: "@,
            DeleteAction::RemoveDirAll => "Failed to delete directory: "@,
        }) + detail@,
{
    match action {
        DeleteAction::RemoveFile => join("Failed to delete file: ", detail),
        DeleteAction::RemoveEmptyDir => join("Failed to delete directory: ", detail),
        DeleteAction::RemoveDirAll => join("Failed to delete directory: ", detail),
    }
}

/// Where a path goes when it is renamed, or why it is not renamed. `target`
/// is the new name within the parent directory of `old_path`, if that path
/// has a parent. The old path must exist and must not be read-only, and
/// nothing may exist at the target.
pub open spec fn renaming(
    old_path: Seq<char>,
    old_exists: bool,
    target: Option<Seq<char>>,
    target_exists: bool,
    readonly: bool,
) -> Result<Seq<char>, Seq<char>> {
    if !old_exists {
        Err("Path does not exist: "@ + old_path)
    } else {
        match target {
            None => Err("Invalid path - no parent directory"@),
            Some(new_path) => if target_exists {
                Err("Target already exists: "@ + new_path)
            } else if readonly {
                Err("Source is read-only"@)
            } else {
                Ok(new_path)
            },
        }
    }
}

/// Decides whether a path is renamed, and answers with the new path.
pub fn plan_rename(
    old_path: &str,
    old_exists: bool,
    target: Option<&str>,
    target_exists: bool,
    readonly: bool,
) -> (plan: Result<String, String>)
    ensures
        (match plan {
            Ok(new_path) => Ok::<Seq<char>, Seq<char>>(new_path@),
            Err(message) => Err(message@),
        }) == renaming(
            old_path@,
            old_exists,
            match target {
                Some(text) => Some(text@),
                None => None,
            },
            target_exists,
            readonly,
        ),
{
    if !old_exists {
        return Err(join("Path does not exist: ", old_path));
    }
    match target {
        None => Err(String::from_str("Invalid path - no parent directory")),
        Some(new_path) => {
            if target_exists {
                Err(join("Target already exists: ", new_path))
            } else if readonly {
                Err(String::from_str("Source is read-only"))
            } else {
                Ok(String::from_str(new_path))
            }
        },
    }
}

/// What is answered when renaming failed for the reason `detail`.
pub fn rename_failure(detail: &str) -> (message: String)
    ensures
        message@ == "Failed to rename: "@ + detail@,
{
    join("Failed to rename: ", detail)
}

} // verus!
