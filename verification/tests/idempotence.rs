use bevy_tasks::AsyncComputeTaskPool;
use bevy_tasks::ComputeTaskPool;
use bevy_tasks::IoTaskPool;
use task_pool_options::options::DefaultTaskPoolOptions;

#[test]
fn second_allocation_leaves_existing_pools_unchanged() {
    DefaultTaskPoolOptions::with_num_threads(4).create_default_pools();
    assert_eq!(IoTaskPool::get().thread_num(), 1);
    assert_eq!(AsyncComputeTaskPool::get().thread_num(), 1);
    assert_eq!(ComputeTaskPool::get().thread_num(), 2);

    // A second pass computes different counts (2, 2, 4), but the pools
    // already exist, so those counts are discarded per pool.
    let second = DefaultTaskPoolOptions::with_num_threads(8);
    let allocation = second.compute_allocation(8);
    assert_eq!(allocation.io_threads, 2);
    second.create_default_pools();

    assert_eq!(IoTaskPool::get().thread_num(), 1);
    assert_eq!(AsyncComputeTaskPool::get().thread_num(), 1);
    assert_eq!(ComputeTaskPool::get().thread_num(), 2);
}
