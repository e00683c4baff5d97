//! Giving a board back.

use vstd::prelude::*;

verus! {

/// The request to release one board.
#[derive(Clone, Debug, PartialEq, Eq)]
pub struct ReleaseControllerRequest {
    pub controller_id: String,
}

/// What the account service answers to it.
#[derive(Clone, Debug, PartialEq, Eq)]
pub struct ReleaseControllerResponse {
    pub success: bool,
    pub message: Option<String>,
}

} // verus!
