//! Requests to flash a board.

use vstd::prelude::*;

verus! {

/// A request to flash one board with one firmware image.
#[derive(Clone, Debug, PartialEq, Eq)]
pub struct FlashRequest {
    pub controller_id: String,
    pub firmware_url: String,
    pub timeout_minutes: u32,
}

} // verus!
