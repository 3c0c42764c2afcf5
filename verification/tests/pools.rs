use bevy_tasks::AsyncComputeTaskPool;
use bevy_tasks::ComputeTaskPool;
use bevy_tasks::IoTaskPool;
use task_pool_options::options::DefaultTaskPoolOptions;

#[test]
fn pools_are_created_with_the_computed_counts() {
    let options = DefaultTaskPoolOptions::with_num_threads(4);
    let allocation = options.compute_allocation(4);
    assert_eq!(allocation.io_threads, 1);
    assert_eq!(allocation.async_compute_threads, 1);
    assert_eq!(allocation.compute_threads, 2);

    options.create_default_pools();

    assert_eq!(IoTaskPool::get().thread_num(), 1);
    assert_eq!(AsyncComputeTaskPool::get().thread_num(), 1);
    assert_eq!(ComputeTaskPool::get().thread_num(), 2);
}
