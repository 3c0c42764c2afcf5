//! The edge to the task-pool runtime: the hardware core-count probe and
//! the idempotent creation of the three process-wide pool singletons.

use vstd::prelude::*;

verus! {

/// Relies on `bevy_tasks::available_parallelism`: the logical core
/// count visible to the process, documented to always return at least 1.
/// The value depends on the machine and the environment, so nothing
/// more is stated of it.
#[verifier::external_body]
pub(crate) fn probed_core_count() -> (count: usize)
    ensures
        1 <= count,
{
    bevy_tasks::available_parallelism()
}

/// Relies on `bevy_tasks::IoTaskPool::get_or_init` and
/// `bevy_tasks::TaskPoolBuilder`: creates the process-wide IO pool with
/// the given thread count if it is absent; when the pool already
/// exists, the call keeps it and discards the new count. The thread
/// name is diagnostic only.
#[verifier::external_body]
pub(crate) fn init_io_pool(num_threads: usize) {
    bevy_tasks::IoTaskPool::get_or_init(
        || {
            bevy_tasks::TaskPoolBuilder::new().num_threads(num_threads).thread_name(
                "IO Task Pool".to_string(),
            ).build()
        },
    );
}

/// Relies on `bevy_tasks::AsyncComputeTaskPool::get_or_init` and
/// `bevy_tasks::TaskPoolBuilder`: creates the process-wide async
/// compute pool with the given thread count if it is absent; when the
/// pool already exists, the call keeps it and discards the new count.
/// The thread name is diagnostic only.
#[verifier::external_body]
pub(crate) fn init_async_compute_pool(num_threads: usize) {
    bevy_tasks::AsyncComputeTaskPool::get_or_init(
        || {
            bevy_tasks::TaskPoolBuilder::new().num_threads(num_threads).thread_name(
                "Async Compute Task Pool".to_string(),
            ).build()
        },
    );
}

/// Relies on `bevy_tasks::ComputeTaskPool::get_or_init` and
/// `bevy_tasks::TaskPoolBuilder`: creates the process-wide compute pool
/// with the given thread count if it is absent; when the pool already
/// exists, the call keeps it and discards the new count. The thread
/// name is diagnostic only.
#[verifier::external_body]
pub(crate) fn init_compute_pool(num_threads: usize) {
    bevy_tasks::ComputeTaskPool::get_or_init(
        || {
            bevy_tasks::TaskPoolBuilder::new().num_threads(num_threads).thread_name(
                "Compute Task Pool".to_string(),
            ).build()
        },
    );
}

} // verus!
