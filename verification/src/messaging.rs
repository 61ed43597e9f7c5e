//! Events published on the message bus.
use vstd::prelude::*;

verus! {

/// An event of a given type and its payload.
#[derive(Debug, Clone)]
pub struct Event<T> {
    pub event_type: String,
    pub payload: T,
}

} // verus!
