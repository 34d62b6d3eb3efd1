use vstd::prelude::*;

verus! {

/// Why a worker gave no result for a job.
#[derive(Debug, Clone, Copy, PartialEq, Eq, Structural)]
pub enum WorkerError {
    /// The job panicked.
    Panic,
}

} // verus!
