//! Reserving a board.

use vstd::prelude::*;

verus! {

/// The request to select one board.
#[derive(Clone, Debug, PartialEq, Eq)]
pub struct SelectControllerRequest {
    pub controller_id: String,
}

/// What the account service answers to it.
#[derive(Clone, Debug, PartialEq, Eq)]
pub struct SelectControllerResponse {
    pub success: bool,
    pub message: Option<String>,
}

} // verus!
