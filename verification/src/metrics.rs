//! Statistics over the results of a run: how many attempts succeeded and
//! failed, and the mean and spread of the latencies of those that succeeded.
//!
//! Everything is exact: latencies are whole milliseconds, and a mean, a
//! variance or a rate is a ratio of two integers.

use crate::tx::TxResult;
use crate::tx::TxResultView;
use crate::tx::NANOS_PER_MILLI;
use vstd::prelude::*;

verus! {

/// A ratio of two integers, the second of which is not zero.
#[derive(Debug, Clone, Copy)]
pub struct Ratio {
    pub num: u128,
    pub den: u128,
}

/// Counts and sums over a collection of results.
#[derive(Debug, Clone, Copy)]
pub struct Statistics {
    /// The number of results.
    pub total_count: usize,
    /// The number of results that are successes.
    pub success_count: usize,
    /// The number of results that are failures.
    pub failure_count: usize,
    /// The sum of the successes' latencies, in milliseconds.
    pub latency_sum_ms: u128,
    /// The sum of the squares of the successes' latencies, in milliseconds
    /// squared, or nothing where it exceeds 128 bits.
    pub latency_square_sum_ms: Option<u128>,
}

/// The latency of a result in whole milliseconds.
pub open spec fn latency_ms(r: TxResultView) -> nat {
    r.latency / (NANOS_PER_MILLI as nat)
}

/// The number of successes among `rs`.
pub open spec fn success_count(rs: Seq<TxResultView>) -> nat
    decreases rs.len(),
{
    if rs.len() == 0 {
        0
    } else {
        success_count(rs.drop_last()) + if rs.last().failed {
            0nat
        } else {
            1nat
        }
    }
}

/// The number of failures among `rs`.
pub open spec fn failure_count(rs: Seq<TxResultView>) -> nat
    decreases rs.len(),
{
    if rs.len() == 0 {
        0
    } else {
        failure_count(rs.drop_last()) + if rs.last().failed {
            1nat
        } else {
            0nat
        }
    }
}

/// The sum of the latencies of the successes among `rs`, in milliseconds.
pub open spec fn latency_sum(rs: Seq<TxResultView>) -> nat
    decreases rs.len(),
{
    if rs.len() == 0 {
        0
    } else {
        latency_sum(rs.drop_last()) + if rs.last().failed {
            0nat
        } else {
            latency_ms(rs.last())
        }
    }
}

/// The sum of the squares of the latencies of the successes among `rs`.
pub open spec fn latency_square_sum(rs: Seq<TxResultView>) -> nat
    decreases rs.len(),
{
    if rs.len() == 0 {
        0
    } else {
        latency_square_sum(rs.drop_last()) + if rs.last().failed {
            0nat
        } else {
            latency_ms(rs.last()) * latency_ms(rs.last())
        }
    }
}

/// A number as 128 bits, or nothing where it does not fit.
pub open spec fn fit(n: nat) -> Option<u128> {
    if n <= u128::MAX {
        Some(n as u128)
    } else {
        None
    }
}

/// Whether `stats` are the statistics of the results `rs`.
pub open spec fn describes(stats: Statistics, rs: Seq<TxResultView>) -> bool {
    &&& stats.total_count == rs.len()
    &&& stats.success_count == success_count(rs)
    &&& stats.failure_count == failure_count(rs)
    &&& stats.latency_sum_ms == latency_sum(rs)
    &&& stats.latency_square_sum_ms == fit(latency_square_sum(rs))
}

/// `count` out of `total` in percent, and zero where `total` is zero.
pub open spec fn rate_of(count: usize, total: usize) -> Ratio {
    if total == 0 {
        Ratio { num: 0, den: 1 }
    } else {
        Ratio { num: (count * 100) as u128, den: total as u128 }
    }
}

/// The mean latency of the successes in milliseconds, and zero where there
/// is none.
pub open spec fn mean_of(stats: Statistics) -> Ratio {
    if stats.success_count == 0 {
        Ratio { num: 0, den: 1 }
    } else {
        Ratio { num: stats.latency_sum_ms, den: stats.success_count as u128 }
    }
}

/// The sample variance of the successes' latencies in milliseconds squared:
/// zero for fewer than two successes; for `n` successes with the sum `s` and
/// the sum of squares `q`, `(n * q - s * s) / (n * (n - 1))`; nothing where
/// these numbers exceed 128 bits.
pub open spec fn variance_of(stats: Statistics) -> Option<Ratio> {
    let n = stats.success_count as int;
    let s = stats.latency_sum_ms as int;
    if n <= 1 {
        Some(Ratio { num: 0, den: 1 })
    } else {
        match stats.latency_square_sum_ms {
            None => None,
            Some(q) => if n * q <= u128::MAX && s * s <= n * q {
                Some(Ratio { num: (n * q - s * s) as u128, den: (n * (n - 1)) as u128 })
            } else {
                None
            },
        }
    }
}

/// Whether `root` is the square root of `value`, rounded down.
pub open spec fn is_floor_sqrt(value: nat, root: nat) -> bool {
    root * root <= value < (root + 1) * (root + 1)
}

/// The square root of `value`, rounded down.
pub fn floor_sqrt(value: u128) -> (root: u64)
    ensures
        is_floor_sqrt(value as nat, root as nat),
{
    let mut low: u128 = 0;
    let mut high: u128 = 0x1_0000_0000_0000_0000;
    assert(value < high * high) by (nonlinear_arith)
        requires
            high == 0x1_0000_0000_0000_0000,
            value <= u128::MAX,
    ;
    while high - low > 1
        invariant
            low < high <= 0x1_0000_0000_0000_0000,
            low * low <= value < high * high,
        decreases high - low,
    {
        let mid: u128 = low + (high - low) / 2;
        assert(mid * mid <= u128::MAX) by (nonlinear_arith)
            requires
                mid <= 0xFFFF_FFFF_FFFF_FFFF,
        ;
        if mid * mid <= value {
            low = mid;
        } else {
            high = mid;
        }
    }
    low as u64
}

/// Every result is a success or a failure, never both.
pub proof fn lemma_counts_partition(rs: Seq<TxResultView>)
    ensures
        success_count(rs) + failure_count(rs) == rs.len(),
    decreases rs.len(),
{
    if rs.len() > 0 {
        lemma_counts_partition(rs.drop_last());
    }
}

/// Whether the two ratios add up to the whole number `whole`.
pub open spec fn ratios_add_up_to(a: Ratio, b: Ratio, whole: nat) -> bool {
    a.num * b.den + b.num * a.den == whole * a.den * b.den
}

/// The rates of success and of failure add up to 100 where there are
/// results, and are both zero where there are none.
pub proof fn lemma_rates_add_up(stats: Statistics)
    requires
        stats.success_count + stats.failure_count == stats.total_count,
    ensures
        stats.total_count > 0 ==> ratios_add_up_to(
            rate_of(stats.success_count, stats.total_count),
            rate_of(stats.failure_count, stats.total_count),
            100,
        ),
        stats.total_count == 0 ==> rate_of(stats.success_count, stats.total_count).num == 0
            && rate_of(stats.failure_count, stats.total_count).num == 0,
{
    if stats.total_count > 0 {
        let s = stats.success_count as int;
        let f = stats.failure_count as int;
        let t = stats.total_count as int;
        assert((s * 100) * t + (f * 100) * t == 100 * t * t) by (nonlinear_arith)
            requires
                s + f == t,
        ;
    }
}

/// The statistics of a collection of results are determined by it: computed
/// twice over the same results, they are the same.
pub proof fn lemma_statistics_determined(a: Statistics, b: Statistics, rs: Seq<TxResultView>)
    requires
        describes(a, rs),
        describes(b, rs),
    ensures
        a == b,
{
}

/// The sum of the squares of the distances of the successes' latencies from
/// the whole number `x`, written out: it is not negative.
proof fn lemma_square_distances(rs: Seq<TxResultView>, x: int)
    ensures
        latency_square_sum(rs) - 2 * x * latency_sum(rs) + success_count(rs) * x * x >= 0,
    decreases rs.len(),
{
    let q2 = latency_square_sum(rs) as int;
    let s2 = latency_sum(rs) as int;
    let n2 = success_count(rs) as int;
    if rs.len() > 0 {
        let front = rs.drop_last();
        lemma_square_distances(front, x);
        let q = latency_square_sum(front) as int;
        let s = latency_sum(front) as int;
        let n = success_count(front) as int;
        if !rs.last().failed {
            let l = latency_ms(rs.last()) as int;
            assert(q2 - 2 * x * s2 + n2 * x * x >= 0) by (nonlinear_arith)
                requires
                    q2 == q + l * l,
                    s2 == s + l,
                    n2 == n + 1,
                    q - 2 * x * s + n * x * x >= 0,
            ;
        }
    } else {
        assert(q2 - 2 * x * s2 + n2 * x * x >= 0) by (nonlinear_arith)
            requires
                q2 == 0,
                s2 == 0,
                n2 == 0,
        ;
    }
}

/// The square of the sum of the successes' latencies is at most their number
/// times the sum of their squares: the variance is never negative.
pub proof fn lemma_variance_not_negative(rs: Seq<TxResultView>)
    ensures
        latency_sum(rs) * latency_sum(rs) <= success_count(rs) * latency_square_sum(rs),
    decreases rs.len(),
{
    let q2 = latency_square_sum(rs) as int;
    let s2 = latency_sum(rs) as int;
    let n2 = success_count(rs) as int;
    if rs.len() > 0 {
        let front = rs.drop_last();
        lemma_variance_not_negative(front);
        let q = latency_square_sum(front) as int;
        let s = latency_sum(front) as int;
        let n = success_count(front) as int;
        if !rs.last().failed {
            let l = latency_ms(rs.last()) as int;
            lemma_square_distances(front, l);
            assert(s2 * s2 <= n2 * q2) by (nonlinear_arith)
                requires
                    q2 == q + l * l,
                    s2 == s + l,
                    n2 == n + 1,
                    s * s <= n * q,
                    q - 2 * l * s + n * l * l >= 0,
            ;
        }
    } else {
        assert(s2 * s2 <= n2 * q2) by (nonlinear_arith)
            requires
                q2 == 0,
                s2 == 0,
                n2 == 0,
        ;
    }
}

/// The variance of the statistics of a collection of results is to be had
/// whenever the numbers it is made of fit in 128 bits.
pub proof fn lemma_variance_defined(stats: Statistics, rs: Seq<TxResultView>)
    requires
        describes(stats, rs),
        success_count(rs) * latency_square_sum(rs) <= u128::MAX,
    ensures
        variance_of(stats) is Some,
{
    lemma_variance_not_negative(rs);
    if stats.success_count > 1 {
        let n = success_count(rs) as int;
        let q = latency_square_sum(rs) as int;
        assert(q <= n * q) by (nonlinear_arith)
            requires
                n >= 1,
                q >= 0,
        ;
    }
}

impl Statistics {
    /// The statistics of `results`.
    pub fn calculate(results: &[TxResult]) -> (stats: Self)
        ensures
            describes(stats, results@.map_values(|r: TxResult| r@)),
            stats.success_count + stats.failure_count == stats.total_count,
    {
        let ghost rs = results@.map_values(|r: TxResult| r@);
        let mut successes: usize = 0;
        let mut failures: usize = 0;
        let mut sum: u128 = 0;
        let mut square_sum: Option<u128> = Some(0);
        let mut i: usize = 0;
        assert(rs.take(0) =~= Seq::empty());
        while i < results.len()
            invariant
                i <= results@.len(),
                rs == results@.map_values(|r: TxResult| r@),
                successes == success_count(rs.take(i as int)),
                failures == failure_count(rs.take(i as int)),
                successes + failures == i,
                sum == latency_sum(rs.take(i as int)),
                sum <= i * 0xFFFF_FFFF_FFFF_FFFF,
                square_sum == fit(latency_square_sum(rs.take(i as int))),
            decreases results@.len() - i,
        {
            let result = &results[i];
            proof {
                assert(rs.take(i + 1).drop_last() =~= rs.take(i as int));
                assert(rs.take(i + 1).last() == result@);
            }
            if result.failed {
                failures = failures + 1;
            } else {
                successes = successes + 1;
                let ms: u128 = result.latency_millis() as u128;
                assert(ms * ms <= u128::MAX) by (nonlinear_arith)
                    requires
                        ms <= 0xFFFF_FFFF_FFFF_FFFF,
                ;
                sum = sum + ms;
                square_sum =
                match square_sum {
                    Some(q) => q.checked_add(ms * ms),
                    None => None,
                };
            }
            i = i + 1;
        }
        assert(rs.take(i as int) =~= rs);
        Statistics {
            total_count: results.len(),
            success_count: successes,
            failure_count: failures,
            latency_sum_ms: sum,
            latency_square_sum_ms: square_sum,
        }
    }

    /// The share of successes in percent, and zero where there are no results.
    pub fn success_rate(&self) -> (rate: Ratio)
        ensures
            rate == rate_of(self.success_count, self.total_count),
            rate.den > 0,
    {
        if self.total_count == 0 {
            Ratio { num: 0, den: 1 }
        } else {
            Ratio { num: self.success_count as u128 * 100, den: self.total_count as u128 }
        }
    }

    /// The share of failures in percent, and zero where there are no results.
    pub fn failure_rate(&self) -> (rate: Ratio)
        ensures
            rate == rate_of(self.failure_count, self.total_count),
            rate.den > 0,
    {
        if self.total_count == 0 {
            Ratio { num: 0, den: 1 }
        } else {
            Ratio { num: self.failure_count as u128 * 100, den: self.total_count as u128 }
        }
    }

    /// The mean latency of the successes in milliseconds.
    pub fn mean_latency_ms(&self) -> (mean: Ratio)
        ensures
            mean == mean_of(*self),
            mean.den > 0,
    {
        if self.success_count == 0 {
            Ratio { num: 0, den: 1 }
        } else {
            Ratio { num: self.latency_sum_ms, den: self.success_count as u128 }
        }
    }

    /// The sample variance of the successes' latencies in milliseconds
    /// squared.
    pub fn variance_ms(&self) -> (variance: Option<Ratio>)
        ensures
            variance == variance_of(*self),
            variance matches Some(v) ==> v.den > 0,
    {
        if self.success_count <= 1 {
            return Some(Ratio { num: 0, den: 1 });
        }
        let n: u128 = self.success_count as u128;
        let s: u128 = self.latency_sum_ms;
        match self.latency_square_sum_ms {
            None => None,
            Some(q) => match n.checked_mul(q) {
                None => None,
                Some(nq) => match s.checked_mul(s) {
                    None => None,
                    Some(ss) => {
                        if ss > nq {
                            None
                        } else {
                            assert(0 < n * (n - 1) <= u128::MAX) by (nonlinear_arith)
                                requires
                                    2 <= n <= 0xFFFF_FFFF_FFFF_FFFF,
                            ;
                            Some(Ratio { num: nq - ss, den: n * (n - 1) })
                        }
                    },
                },
            },
        }
    }

    /// The sample standard deviation of the successes' latencies in whole
    /// milliseconds, rounded down; nothing where the variance is not to be
    /// had.
    pub fn std_dev_ms(&self) -> (deviation: Option<u64>)
        ensures
            match variance_of(*self) {
                Some(v) => deviation matches Some(d) && is_floor_sqrt((v.num / v.den) as nat, d as nat),
                None => deviation is None,
            },
    {
        match self.variance_ms() {
            None => None,
            Some(v) => Some(floor_sqrt(v.num / v.den)),
        }
    }
}

impl Default for Statistics {
    /// The statistics of no results.
    fn default() -> (stats: Self)
        ensures
            describes(stats, Seq::empty()),
    {
        Statistics {
            total_count: 0,
            success_count: 0,
            failure_count: 0,
            latency_sum_ms: 0,
            latency_square_sum_ms: Some(0),
        }
    }
}

} // verus!
