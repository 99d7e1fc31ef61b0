//! How switches between workers fared, and the time limit that follows from it.

use vstd::prelude::*;

verus! {

/// The time limit without any measurement, in nanoseconds.
pub const DEFAULT_TIMEOUT_NS: u64 = 1000;

/// The least time limit, in nanoseconds.
pub const LEAST_TIMEOUT_NS: u64 = 200;

/// The greatest time limit, in nanoseconds.
pub const GREATEST_TIMEOUT_NS: u64 = 10_000;

/// The greatest number of switches whose rates of success can be told apart.
pub const GREATEST_COUNT: u64 = 2_251_799_813_685_248;

/// How many switches succeeded, how many ran into the time limit, the time that they took together
/// and the last time limit, both in nanoseconds.
#[derive(Debug, Copy, Clone, PartialEq, Eq, Structural)]
pub struct ContextSwitchMetrics {
    pub success_count: u64,
    pub timeout_count: u64,
    pub total_time: u64,
    pub last_timeout: u64,
}

/// `value`, moved to the nearer end if it is outside the limits of a time limit.
pub open spec fn within_limits(value: int) -> int {
    if value < LEAST_TIMEOUT_NS {
        LEAST_TIMEOUT_NS as int
    } else if value > GREATEST_TIMEOUT_NS {
        GREATEST_TIMEOUT_NS as int
    } else {
        value
    }
}

/// The next time limit: a tenth less if more than 95 of 100 switches succeeded, a fifth more if
/// fewer than 80 of 100 did, and else the same.
pub open spec fn next_timeout(metrics: ContextSwitchMetrics) -> int {
    let total = metrics.success_count + metrics.timeout_count;
    let current = metrics.last_timeout as int;
    within_limits(
        if metrics.success_count * 100 > total * 95 {
            current * 9 / 10
        } else if metrics.success_count * 100 < total * 80 {
            current * 6 / 5
        } else {
            current
        },
    )
}

impl ContextSwitchMetrics {
    /// The number of switches is small enough to tell their rates of success apart.
    pub open spec fn wf(&self) -> bool {
        self.success_count + self.timeout_count <= GREATEST_COUNT
    }

    /// No switch so far.
    pub fn new() -> (r: ContextSwitchMetrics)
        ensures
            r == (ContextSwitchMetrics {
                success_count: 0,
                timeout_count: 0,
                total_time: 0,
                last_timeout: DEFAULT_TIMEOUT_NS,
            }),
            r.wf(),
    {
        ContextSwitchMetrics {
            success_count: 0,
            timeout_count: 0,
            total_time: 0,
            last_timeout: DEFAULT_TIMEOUT_NS,
        }
    }

    /// Finds the next time limit and notes it. Without any switch so far it is the default, and
    /// nothing is noted. The rule that decides it is stated where the switches are few enough to
    /// tell their rates apart; the limits hold for any number of them.
    pub fn update_timeout(&mut self) -> (r: u64)
        requires
            old(self).success_count + old(self).timeout_count <= u64::MAX,
        ensures
            old(self).success_count + old(self).timeout_count == 0 ==> r == DEFAULT_TIMEOUT_NS
                && *final(self) == *old(self),
            old(self).success_count + old(self).timeout_count > 0 ==> {
                &&& LEAST_TIMEOUT_NS <= r <= GREATEST_TIMEOUT_NS
                &&& *final(self) == (ContextSwitchMetrics { last_timeout: r, ..*old(self) })
                &&& old(self).wf() ==> r == next_timeout(*old(self))
            },
    {
        let success: u128 = self.success_count as u128;
        let total: u128 = success + self.timeout_count as u128;
        if total == 0 {
            return DEFAULT_TIMEOUT_NS;
        }
        let current: u128 = self.last_timeout as u128;
        let wanted: u128 = if success * 100 > total * 95 {
            current * 9 / 10
        } else if success * 100 < total * 80 {
            current * 6 / 5
        } else {
            current
        };
        let limited: u64 = if wanted < LEAST_TIMEOUT_NS as u128 {
            LEAST_TIMEOUT_NS
        } else if wanted > GREATEST_TIMEOUT_NS as u128 {
            GREATEST_TIMEOUT_NS
        } else {
            wanted as u64
        };
        self.last_timeout = limited;
        limited
    }
}

/// The next time limit is between the least and the greatest. If the last one was too, it falls
/// only if switches succeed well and rises only if they do not.
pub proof fn law_timeout_follows_success(metrics: ContextSwitchMetrics)
    ensures
        LEAST_TIMEOUT_NS <= next_timeout(metrics) <= GREATEST_TIMEOUT_NS,
        metrics.last_timeout <= GREATEST_TIMEOUT_NS && next_timeout(metrics)
            < metrics.last_timeout ==> metrics.success_count * 100 > (
        metrics.success_count + metrics.timeout_count) * 95,
        metrics.last_timeout >= LEAST_TIMEOUT_NS && next_timeout(metrics)
            > metrics.last_timeout ==> metrics.success_count * 100 < (
        metrics.success_count + metrics.timeout_count) * 80,
{
}

/// How the next time limit follows from the last one, where it is not cut off at 200 or at 10000:
/// it is nine tenths of it, rounded down, if more than 19 of 20 switches succeeded; six fifths of
/// it, rounded down, if fewer than 4 of 5 did; and otherwise the same. Where it is cut off it is
/// the end that is nearer.
pub proof fn law_timeout_steps(metrics: ContextSwitchMetrics)
    ensures
        ({
            let won = metrics.success_count as int;
            let all = metrics.success_count + metrics.timeout_count;
            let last = metrics.last_timeout as int;
            let next = next_timeout(metrics);
            let good = 20 * won > 19 * all;
            let bad = 5 * won < 4 * all;
            &&& 200 <= next <= 10_000
            &&& 200 < next < 10_000 ==> {
                &&& good ==> 10 * next <= 9 * last < 10 * next + 10
                &&& bad ==> 5 * next <= 6 * last < 5 * next + 5
                &&& !good && !bad ==> next == last
            }
            &&& next == 200 ==> {
                &&& good ==> 9 * last < 2010
                &&& bad ==> 6 * last < 1005
                &&& !good && !bad ==> last <= 200
            }
            &&& next == 10_000 ==> {
                &&& good ==> 9 * last >= 100_000
                &&& bad ==> 6 * last >= 50_000
                &&& !good && !bad ==> last >= 10_000
            }
        }),
{
}

} // verus!
