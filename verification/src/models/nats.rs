//! Messages sent over the message bus.

use vstd::prelude::*;

verus! {

/// An event name with its payload.
#[derive(Clone, Debug, PartialEq, Eq)]
pub struct NatsMessage<T> {
    pub event: String,
    pub payload: T,
}

} // verus!
