//! The boards that firmware is flashed to.

use vstd::prelude::*;

verus! {

/// What a board is doing.
#[derive(Clone, Copy, Debug, PartialEq, Eq, Structural)]
pub enum ControllerStatus {
    Available,
    Reserved,
    Flashing,
    Success,
    Error,
}

/// One board.
#[allow(non_camel_case_types)]
#[derive(Clone, Debug, PartialEq, Eq)]
pub struct controller {
    pub id: String,
    pub model: String,
    pub status: ControllerStatus,
}

} // verus!
