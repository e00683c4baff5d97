//! The project that is open and the boards that are selected.

use vstd::prelude::*;

verus! {

/// The state of one application session.
#[derive(Clone, Debug, PartialEq, Eq)]
pub struct AppState {
    /// The path of the project that is open, if one is.
    pub active_project: Option<String>,
    /// The identifiers of the boards that are selected.
    pub selected_controllers: Vec<String>,
}

impl Default for AppState {
    /// A session with no project open and no board selected.
    fn default() -> (state: AppState)
        ensures
            state.active_project is None,
            state.selected_controllers@.len() == 0,
    {
        AppState { active_project: None, selected_controllers: Vec::new() }
    }
}

} // verus!
