//! Renewing the access token.

use vstd::prelude::*;

verus! {

/// What the account service answers to a refresh.
#[derive(Clone, Debug, PartialEq, Eq)]
pub struct RefreshResponse {
    pub access_token: String,
}

} // verus!
