//! The boards that a student may use.

use vstd::prelude::*;

verus! {

/// One board as the account service lists it.
#[derive(Clone, Debug, PartialEq, Eq)]
pub struct Controller {
    pub controller_id: String,
    pub controller_no: i32,
    pub device_id: String,
    pub status: String,
    pub selectable: bool,
}

/// What the account service answers to a request for the boards.
#[derive(Clone, Debug, PartialEq, Eq)]
pub struct ControllersResponse {
    pub controllers: Vec<Controller>,
    pub status: String,
}

} // verus!
