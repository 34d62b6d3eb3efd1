use vstd::prelude::*;

verus! {

/// Marks a system that runs alone on the main thread.
pub struct ExclusiveMarker;

/// Marks a system that may run on a worker thread.
pub struct AsyncMarker;

} // verus!
