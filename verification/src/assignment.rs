//! The per-pool thread-assignment policy: sizes one pool from the
//! remaining and total thread budget.

use vstd::prelude::*;

verus! {

/// The smaller of two integers.
pub open spec fn min_int(a: int, b: int) -> int {
    if a <= b {
        a
    } else {
        b
    }
}

/// `v` clamped into the interval `[lo, hi]`; `lo` wins when `lo > hi`.
pub open spec fn clamp_int(v: int, lo: int, hi: int) -> int {
    if v < lo {
        lo
    } else if v > hi {
        hi
    } else {
        v
    }
}

/// `a - b`, saturating at zero.
pub open spec fn saturating_sub_int(a: int, b: int) -> int {
    if a >= b {
        a - b
    } else {
        0
    }
}

/// An exact fraction: `num / den`. Stands for the share of the total
/// thread budget that a pool targets; `1/1` is the conventional way to
/// say "everything that is left".
///
/// A negative numerator is representable but is a misconfiguration:
/// evaluation rejects it (see `ConfigError`).
#[derive(Clone, Copy, PartialEq, Eq, Structural, Debug)]
pub struct Percent {
    /// Numerator; a negative value is a fatal misconfiguration.
    pub num: i32,
    /// Denominator; must be positive.
    pub den: i32,
}

impl Percent {
    /// A well-formed fraction has a positive denominator.
    pub open spec fn wf(self) -> bool {
        self.den > 0
    }

    /// A negative fraction: the one authoring error evaluation rejects.
    pub open spec fn is_negative(self) -> bool {
        self.num < 0
    }

    /// `total * self`, rounded half away from zero.
    ///
    /// For a non-negative fraction this equals `floor(total * num / den + 1/2)`,
    /// written over integers alone.
    pub open spec fn scaled(self, total: int) -> int
        recommends
            self.wf(),
            !self.is_negative(),
    {
        (2 * total * self.num + self.den) / (2 * self.den)
    }
}

/// The error of evaluating a misconfigured policy.
#[derive(Clone, Copy, PartialEq, Eq, Structural, Debug)]
pub enum ConfigError {
    /// The policy's `percent` fraction is negative.
    NegativePercent,
}

/// Defines a simple way to determine how many threads to use given the
/// number of remaining cores and the number of total cores.
#[derive(Clone, Copy, PartialEq, Eq, Structural, Debug)]
pub struct TaskPoolThreadAssignmentPolicy {
    /// Force using at least this many threads.
    pub min_threads: usize,
    /// Under no circumstance use more than this many threads for this pool.
    pub max_threads: usize,
    /// Target using this fraction of total cores, clamped by
    /// `min_threads` and `max_threads`. It is permitted to use `1/1` to
    /// try to use all remaining threads.
    pub percent: Percent,
}

impl TaskPoolThreadAssignmentPolicy {
    /// A usable policy: the fraction is well-formed and the clamp
    /// interval is not empty.
    pub open spec fn wf(self) -> bool {
        &&& self.percent.wf()
        &&& self.min_threads <= self.max_threads
    }

    /// The rounded share of the total budget this pool targets, before
    /// any clamping.
    pub open spec fn desired_threads(self, total: int) -> int {
        self.percent.scaled(total)
    }

    /// The target share limited to what is still unallocated.
    pub open spec fn budget_limited_share(self, remaining: int, total: int) -> int {
        min_int(self.desired_threads(total), remaining)
    }

    /// What `get_number_of_threads` returns: the budget-limited share,
    /// clamped into `[min_threads, max_threads]`. The clamp is applied
    /// last, so `min_threads` may push the result above `remaining`.
    pub open spec fn assigned_threads(self, remaining: int, total: int) -> int {
        clamp_int(
            self.budget_limited_share(remaining, total),
            self.min_threads as int,
            self.max_threads as int,
        )
    }

    /// How many threads this pool receives from the budget.
    ///
    /// The rounded share of `total_threads` is first limited to
    /// `remaining_threads`, then clamped by `min_threads` and
    /// `max_threads`. The clamp comes last on purpose: the minimum may
    /// push the count above what remains, which is intended on devices
    /// with very few cores.
    pub fn get_number_of_threads(&self, remaining_threads: usize, total_threads: usize) -> (count:
        usize)
        requires
            self.wf(),
            !self.percent.is_negative(),
        ensures
            count == self.assigned_threads(remaining_threads as int, total_threads as int),
            self.min_threads <= count <= self.max_threads,
    {
        let num = self.percent.num as u128;
        let den = self.percent.den as u128;
        let total = total_threads as u128;
        proof {
            assert(2 * (total_threads as int) * (self.percent.num as int) <= u128::MAX - den)
                by (nonlinear_arith)
                requires
                    total_threads <= u64::MAX,
                    0 <= self.percent.num <= i32::MAX,
                    0 < den <= i32::MAX,
            ;
        }
        let scaled: u128 = (2 * total * num + den) / (2 * den);
        let mut desired: usize = if scaled >= remaining_threads as u128 {
            remaining_threads
        } else {
            scaled as usize
        };
        if desired < self.min_threads {
            desired = self.min_threads;
        } else if desired > self.max_threads {
            desired = self.max_threads;
        }
        desired
    }

    /// Evaluate the policy after validating it, as a recoverable error
    /// instead of the fatal path: a negative `percent` yields
    /// `ConfigError::NegativePercent`, and every other input yields
    /// exactly what `get_number_of_threads` returns.
    pub fn try_get_number_of_threads(&self, remaining_threads: usize, total_threads: usize) -> (r:
        Result<usize, ConfigError>)
        requires
            self.wf(),
        ensures
            self.percent.is_negative() <==> r is Err,
            r is Err ==> r == Err::<usize, ConfigError>(ConfigError::NegativePercent),
            r is Ok ==> r == Ok::<usize, ConfigError>(
                self.assigned_threads(remaining_threads as int, total_threads as int) as usize,
            ),
    {
        if self.percent.num < 0 {
            Err(ConfigError::NegativePercent)
        } else {
            Ok(self.get_number_of_threads(remaining_threads, total_threads))
        }
    }
}

/// Whatever the budget, an assignment stays between the policy's
/// minimum and maximum; the minimum holds even when it exceeds the
/// remaining budget.
pub proof fn lemma_assignment_respects_bounds(
    policy: TaskPoolThreadAssignmentPolicy,
    remaining: int,
    total: int,
)
    requires
        policy.wf(),
        !policy.percent.is_negative(),
        0 <= remaining,
        0 <= total,
    ensures
        policy.min_threads <= policy.assigned_threads(remaining, total) <= policy.max_threads,
{
}

/// When the rounded share of the total fits in the remaining budget and
/// already lies between the policy's minimum and maximum, the policy
/// assigns exactly that share.
pub proof fn lemma_assigns_exact_share(
    policy: TaskPoolThreadAssignmentPolicy,
    remaining: int,
    total: int,
)
    requires
        policy.wf(),
        !policy.percent.is_negative(),
        0 <= remaining,
        0 <= total,
        policy.desired_threads(total) <= remaining,
        policy.min_threads <= policy.desired_threads(total) <= policy.max_threads,
    ensures
        policy.assigned_threads(remaining, total) == policy.desired_threads(total),
{
}

} // verus!
