//! Thread-count allocation for a fixed set of named task pools.
//!
//! Given a hardware core count and a declarative per-pool policy
//! (minimum, maximum, and a target fraction of the total budget),
//! this crate deterministically partitions a global thread budget
//! across the IO, async-compute and compute pools, then creates each
//! pool's executor exactly once as a process-wide singleton.

pub mod assignment;
pub mod options;
mod pools;
