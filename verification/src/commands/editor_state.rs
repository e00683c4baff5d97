//! The editor tabs that are kept between sessions.

use vstd::prelude::*;

verus! {

/// The directory under the home directory that holds the state of the
/// editor.
pub const STATE_DIR: &'static str = ".esp-projects";

/// The name of the file that holds the tabs.
pub const STATE_FILE: &'static str = "editor_state.json";

/// One open tab.
#[derive(Clone, Debug, PartialEq, Eq)]
pub struct EditorTab {
    pub id: String,
    pub name: String,
    pub path: String,
    pub content: String,
    pub saved: bool,
    /// `"file"` or `"postman"`.
    pub tab_type: String,
}

/// The tabs of one project.
#[derive(Clone, Debug, PartialEq, Eq)]
pub struct EditorTabState {
    pub project_name: String,
    pub tabs: Vec<EditorTab>,
    pub active_tab_id: Option<String>,
}

} // verus!
