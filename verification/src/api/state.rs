//! Shared server state.
use vstd::prelude::*;

verus! {

/// A marker for the signal that stops the API server.
pub struct ServerShutdownSignal1 {}

} // verus!
