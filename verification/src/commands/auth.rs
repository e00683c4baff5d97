//! Signing in.

use vstd::prelude::*;

verus! {

/// What the account service answers to a login.
#[derive(Clone, Debug, PartialEq, Eq)]
pub struct LoginResponse {
    pub refresh_token: Option<String>,
    pub message: Option<String>,
}

} // verus!
