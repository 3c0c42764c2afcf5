use task_pool_options::assignment::ConfigError;
use task_pool_options::assignment::Percent;
use task_pool_options::assignment::TaskPoolThreadAssignmentPolicy;

fn policy(min_threads: usize, max_threads: usize, num: i32, den: i32) -> TaskPoolThreadAssignmentPolicy {
    TaskPoolThreadAssignmentPolicy {
        min_threads,
        max_threads,
        percent: Percent { num, den },
    }
}

#[test]
fn quarter_of_eight_cores() {
    let p = policy(1, 4, 1, 4);
    assert_eq!(p.get_number_of_threads(8, 8), 2);
}

#[test]
fn rounds_half_away_from_zero() {
    // 2 * 1/4 = 0.5 rounds up to 1, not down to 0
    let p = policy(0, 10, 1, 4);
    assert_eq!(p.get_number_of_threads(10, 2), 1);
    // 6 * 1/4 = 1.5 rounds up to 2
    assert_eq!(p.get_number_of_threads(10, 6), 2);
    // 1 * 1/4 = 0.25 rounds down to 0
    assert_eq!(p.get_number_of_threads(10, 1), 0);
}

#[test]
fn zero_total_still_gets_minimum() {
    // Even with nothing to share, the floor wins over the remaining budget
    let p = policy(2, 4, 1, 4);
    assert_eq!(p.get_number_of_threads(0, 0), 2);
}

#[test]
fn minimum_may_exceed_remaining() {
    let p = policy(3, 8, 1, 4);
    assert_eq!(p.get_number_of_threads(1, 4), 3);
}

#[test]
fn maximum_caps_the_share() {
    let p = policy(0, 3, 1, 1);
    assert_eq!(p.get_number_of_threads(10, 10), 3);
}

#[test]
fn remaining_caps_before_the_floor_clamp() {
    // A whole share of 8 is first limited to the 4 that remain
    let p = policy(1, usize::MAX, 1, 1);
    assert_eq!(p.get_number_of_threads(4, 8), 4);
}

#[test]
fn percent_above_one_is_allowed() {
    // 4 * 3/2 = 6
    let p = policy(0, 8, 3, 2);
    assert_eq!(p.get_number_of_threads(10, 4), 6);
}

#[test]
fn huge_share_saturates_at_remaining() {
    let p = policy(0, usize::MAX, i32::MAX, 1);
    assert_eq!(p.get_number_of_threads(5, usize::MAX), 5);
}

#[test]
fn result_stays_within_bounds() {
    // The returned count lies in [min, max] across the whole range of shares
    for num in 0..5 {
        let p = policy(2, 3, num, 4);
        for remaining in 0..10 {
            let count = p.get_number_of_threads(remaining, 8);
            assert!(count >= 2);
            assert!(count <= 3);
        }
    }
}

#[test]
fn negative_percent_is_rejected() {
    let p = policy(1, 4, -1, 4);
    assert_eq!(p.try_get_number_of_threads(8, 8), Err(ConfigError::NegativePercent));
    let p = policy(0, usize::MAX, i32::MIN, 1);
    assert_eq!(p.try_get_number_of_threads(0, 0), Err(ConfigError::NegativePercent));
}

#[test]
fn try_agrees_with_the_fatal_path() {
    let p = policy(1, 4, 1, 4);
    assert_eq!(p.try_get_number_of_threads(8, 8), Ok(p.get_number_of_threads(8, 8)));
    let p = policy(2, 4, 0, 1);
    assert_eq!(p.try_get_number_of_threads(0, 0), Ok(2));
}
