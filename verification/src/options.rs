//! The ordered allocation procedure: clamp the probed core count into a
//! global budget, size the IO, async-compute and compute pools in that
//! fixed order, and create each pool's executor once.

use vstd::prelude::*;
use crate::assignment::clamp_int;
use crate::assignment::saturating_sub_int;
use crate::assignment::Percent;
use crate::assignment::TaskPoolThreadAssignmentPolicy;
use crate::pools::init_async_compute_pool;
use crate::pools::init_compute_pool;
use crate::pools::init_io_pool;
use crate::pools::probed_core_count;

verus! {

/// How a pool reacts to an unhandled panic in one of its tasks.
#[derive(Clone, Copy, PartialEq, Eq, Structural, Debug)]
pub enum TaskPoolThreadPanicPolicy {
    /// Let the panic propagate: the failure crashes or cancels the caller.
    Propagate,
    /// Catch the panic, swallow it and continue.
    CatchAndIgnore,
}

/// The set of policies describing how the according task pool behaves.
#[derive(Clone, Copy, PartialEq, Eq, Structural, Debug)]
pub struct TaskPoolPolicies {
    /// Used to determine the number of threads to allocate.
    pub assignment_policy: TaskPoolThreadAssignmentPolicy,
    /// Used to determine the panic policy of the task pool.
    pub panic_policy: TaskPoolThreadPanicPolicy,
}

impl TaskPoolPolicies {
    /// A usable pool configuration: the assignment policy is
    /// well-formed and its fraction is not negative.
    pub open spec fn wf(self) -> bool {
        &&& self.assignment_policy.wf()
        &&& !self.assignment_policy.percent.is_negative()
    }
}

/// Helper for configuring and creating the default task pools. For
/// end-users who want full control, initialize the pools manually
/// before calling in here: if a pool already exists, this helper will
/// do nothing to it.
#[derive(Clone, Copy, PartialEq, Eq, Structural, Debug)]
pub struct DefaultTaskPoolOptions {
    /// If the number of logical cores is less than `min_total_threads`,
    /// force using `min_total_threads`.
    pub min_total_threads: usize,
    /// If the number of logical cores is greater than
    /// `max_total_threads`, force using `max_total_threads`.
    pub max_total_threads: usize,
    /// Used to configure the IO pool's inner policies.
    pub io: TaskPoolPolicies,
    /// Used to configure the async compute pool's inner policies.
    pub async_compute: TaskPoolPolicies,
    /// Used to configure the compute pool's inner policies.
    pub compute: TaskPoolPolicies,
}

/// The outcome of one allocation pass: the clamped total budget and the
/// per-pool thread counts, in allocation order.
#[derive(Clone, Copy, PartialEq, Eq, Structural, Debug)]
pub struct PoolAllocation {
    /// The core count clamped into the configured total bounds.
    pub total_threads: usize,
    /// Threads assigned to the IO pool.
    pub io_threads: usize,
    /// Threads assigned to the async compute pool.
    pub async_compute_threads: usize,
    /// Threads assigned to the compute pool.
    pub compute_threads: usize,
}

/// The configuration the parameterless default builds: total bounds
/// `[1, usize::MAX]`; IO and async compute each target a quarter of the
/// cores within `[1, 4]`; compute targets everything left within
/// `[1, usize::MAX]`. Only the IO pool swallows task panics.
pub open spec fn default_options() -> DefaultTaskPoolOptions {
    DefaultTaskPoolOptions {
        min_total_threads: 1,
        max_total_threads: usize::MAX,
        io: TaskPoolPolicies {
            assignment_policy: TaskPoolThreadAssignmentPolicy {
                min_threads: 1,
                max_threads: 4,
                percent: Percent { num: 1, den: 4 },
            },
            panic_policy: TaskPoolThreadPanicPolicy::CatchAndIgnore,
        },
        async_compute: TaskPoolPolicies {
            assignment_policy: TaskPoolThreadAssignmentPolicy {
                min_threads: 1,
                max_threads: 4,
                percent: Percent { num: 1, den: 4 },
            },
            panic_policy: TaskPoolThreadPanicPolicy::Propagate,
        },
        compute: TaskPoolPolicies {
            assignment_policy: TaskPoolThreadAssignmentPolicy {
                min_threads: 1,
                max_threads: usize::MAX,
                percent: Percent { num: 1, den: 1 },
            },
            panic_policy: TaskPoolThreadPanicPolicy::Propagate,
        },
    }
}

impl Default for DefaultTaskPoolOptions {
    /// By default, use however many cores are available on the system.
    fn default() -> (options: Self)
        ensures
            options == default_options(),
            options.wf(),
    {
        DefaultTaskPoolOptions {
            min_total_threads: 1,
            max_total_threads: usize::MAX,
            io: TaskPoolPolicies {
                // Use a quarter of the cores for IO, at least 1, no more than 4
                assignment_policy: TaskPoolThreadAssignmentPolicy {
                    min_threads: 1,
                    max_threads: 4,
                    percent: Percent { num: 1, den: 4 },
                },
                panic_policy: TaskPoolThreadPanicPolicy::CatchAndIgnore,
            },
            async_compute: TaskPoolPolicies {
                // Use a quarter of the cores for async compute, at least 1, no more than 4
                assignment_policy: TaskPoolThreadAssignmentPolicy {
                    min_threads: 1,
                    max_threads: 4,
                    percent: Percent { num: 1, den: 4 },
                },
                panic_policy: TaskPoolThreadPanicPolicy::Propagate,
            },
            compute: TaskPoolPolicies {
                // Use all remaining cores for compute, at least 1
                assignment_policy: TaskPoolThreadAssignmentPolicy {
                    min_threads: 1,
                    max_threads: usize::MAX,
                    // A whole share here means "whatever is left over"
                    percent: Percent { num: 1, den: 1 },
                },
                panic_policy: TaskPoolThreadPanicPolicy::Propagate,
            },
        }
    }
}

impl DefaultTaskPoolOptions {
    /// A usable configuration: the total bounds form an interval and
    /// each pool's policies are usable.
    pub open spec fn wf(self) -> bool {
        &&& self.min_total_threads <= self.max_total_threads
        &&& self.io.wf()
        &&& self.async_compute.wf()
        &&& self.compute.wf()
    }

    /// The global thread budget: the probed core count clamped into
    /// `[min_total_threads, max_total_threads]`.
    pub open spec fn total_threads_for(self, core_count: int) -> int {
        clamp_int(core_count, self.min_total_threads as int, self.max_total_threads as int)
    }

    /// What the IO pool, first in the order, is assigned: the whole
    /// budget is still remaining.
    pub open spec fn io_threads_for(self, core_count: int) -> int {
        self.io.assignment_policy.assigned_threads(
            self.total_threads_for(core_count),
            self.total_threads_for(core_count),
        )
    }

    /// The budget left after the IO pool took its share, saturating at
    /// zero.
    pub open spec fn remaining_after_io(self, core_count: int) -> int {
        saturating_sub_int(self.total_threads_for(core_count), self.io_threads_for(core_count))
    }

    /// What the async compute pool, second in the order, is assigned.
    pub open spec fn async_compute_threads_for(self, core_count: int) -> int {
        self.async_compute.assignment_policy.assigned_threads(
            self.remaining_after_io(core_count),
            self.total_threads_for(core_count),
        )
    }

    /// The budget left after the IO and async compute pools took their
    /// shares, saturating at zero.
    pub open spec fn remaining_after_async_compute(self, core_count: int) -> int {
        saturating_sub_int(
            self.remaining_after_io(core_count),
            self.async_compute_threads_for(core_count),
        )
    }

    /// What the compute pool, last in the order, is assigned. With the
    /// default whole-share fraction it absorbs whatever remains.
    pub open spec fn compute_threads_for(self, core_count: int) -> int {
        self.compute.assignment_policy.assigned_threads(
            self.remaining_after_async_compute(core_count),
            self.total_threads_for(core_count),
        )
    }

    /// Create a configuration that forces using the given number of
    /// threads.
    pub fn with_num_threads(thread_count: usize) -> (options: Self)
        ensures
            options.min_total_threads == thread_count,
            options.max_total_threads == thread_count,
            options.io == default_options().io,
            options.async_compute == default_options().async_compute,
            options.compute == default_options().compute,
            options.wf(),
    {
        let defaults = Self::default();
        DefaultTaskPoolOptions {
            min_total_threads: thread_count,
            max_total_threads: thread_count,
            io: defaults.io,
            async_compute: defaults.async_compute,
            compute: defaults.compute,
        }
    }

    /// One allocation pass, as a pure value: clamp `core_count` into
    /// the configured total bounds, then size the IO, async compute and
    /// compute pools in that fixed order, each against what the earlier
    /// pools left over. The order is semantic: the last pool is the one
    /// a whole-share fraction lets absorb the remainder.
    pub fn compute_allocation(&self, core_count: usize) -> (allocation: PoolAllocation)
        requires
            self.wf(),
        ensures
            allocation.total_threads == self.total_threads_for(core_count as int),
            allocation.io_threads == self.io_threads_for(core_count as int),
            allocation.async_compute_threads == self.async_compute_threads_for(core_count as int),
            allocation.compute_threads == self.compute_threads_for(core_count as int),
    {
        let total_threads = if core_count < self.min_total_threads {
            self.min_total_threads
        } else if core_count > self.max_total_threads {
            self.max_total_threads
        } else {
            core_count
        };
        let mut remaining_threads = total_threads;

        // Determine the number of IO threads we will use
        let io_threads = self.io.assignment_policy.get_number_of_threads(
            remaining_threads,
            total_threads,
        );
        remaining_threads = if remaining_threads >= io_threads {
            remaining_threads - io_threads
        } else {
            0
        };

        // Determine the number of async compute threads we will use
        let async_compute_threads = self.async_compute.assignment_policy.get_number_of_threads(
            remaining_threads,
            total_threads,
        );
        remaining_threads = if remaining_threads >= async_compute_threads {
            remaining_threads - async_compute_threads
        } else {
            0
        };

        // Determine the number of compute threads we will use; this is
        // intentionally last so that an end user can give it the whole share
        let compute_threads = self.compute.assignment_policy.get_number_of_threads(
            remaining_threads,
            total_threads,
        );
        PoolAllocation { total_threads, io_threads, async_compute_threads, compute_threads }
    }

    /// Creates the default thread pools based on the configured values:
    /// one allocation pass sizes the pools, then each pool's executor
    /// is created as a process-wide singleton. A pool that already
    /// exists is left as it is and its newly computed count is
    /// discarded.
    pub fn create_default_pools(&self)
        requires
            self.wf(),
    {
        let core_count = probed_core_count();
        let allocation = self.compute_allocation(core_count);
        init_io_pool(allocation.io_threads);
        init_async_compute_pool(allocation.async_compute_threads);
        init_compute_pool(allocation.compute_threads);
    }
}

/// Over one allocation pass the remaining budget never becomes
/// negative: it starts at the total, never grows from step to step, and
/// the saturating subtraction keeps it at zero or above.
pub proof fn lemma_remaining_budget_monotone(options: DefaultTaskPoolOptions, core_count: int)
    requires
        options.wf(),
    ensures
        0 <= options.remaining_after_async_compute(core_count),
        options.remaining_after_async_compute(core_count) <= options.remaining_after_io(
            core_count,
        ),
        options.remaining_after_io(core_count) <= options.total_threads_for(core_count),
{
}

/// The allocations together can exceed the total budget only through
/// the `min_threads` floor: when no pool's floor pushed its count above
/// its budget-limited share, the three counts sum to at most the total.
pub proof fn lemma_within_budget_without_floor(options: DefaultTaskPoolOptions, core_count: int)
    requires
        options.wf(),
        options.io_threads_for(core_count) <= options.io.assignment_policy.budget_limited_share(
            options.total_threads_for(core_count),
            options.total_threads_for(core_count),
        ),
        options.async_compute_threads_for(core_count)
            <= options.async_compute.assignment_policy.budget_limited_share(
            options.remaining_after_io(core_count),
            options.total_threads_for(core_count),
        ),
        options.compute_threads_for(core_count)
            <= options.compute.assignment_policy.budget_limited_share(
            options.remaining_after_async_compute(core_count),
            options.total_threads_for(core_count),
        ),
    ensures
        options.io_threads_for(core_count) + options.async_compute_threads_for(core_count)
            + options.compute_threads_for(core_count) <= options.total_threads_for(core_count),
{
}

/// Equal lower and upper total-thread bounds force exactly that total,
/// whatever core count the hardware probe reported.
pub proof fn lemma_forced_total_threads(options: DefaultTaskPoolOptions, core_count: int)
    requires
        options.min_total_threads == options.max_total_threads,
    ensures
        options.total_threads_for(core_count) == options.min_total_threads,
{
}

} // verus!
