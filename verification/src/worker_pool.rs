//! Bounded-concurrency worker pool settings.

use vstd::prelude::*;

verus! {

/// Runs scan tasks with a bounded concurrency limit.
pub struct WorkerPool {
    /// Maximum number of tasks executing concurrently.
    pub max_workers: usize,
}

impl WorkerPool {
    /// Create a pool with the given concurrency limit, which must be positive.
    pub fn new(max_workers: usize) -> (p: Self)
        requires
            max_workers > 0,
        ensures
            p.max_workers == max_workers,
    {
        WorkerPool { max_workers }
    }
}

} // verus!
