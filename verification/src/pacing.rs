//! Rate control for the scheduler's three loops.
//!
//! A [`PacedLoop`] enforces a target iteration frequency by measured
//! sleep compensation: after each iteration it budgets the remaining
//! part of the period as sleep time, and at a fixed wall-clock interval
//! it reports the measured throughput. The loop itself never sleeps or
//! reads a clock; the shell running it performs the sleep and hands in
//! monotonic timestamps in nanoseconds.

use vstd::prelude::*;
use vstd::arithmetic::div_mod::{
    lemma_div_denominator, lemma_div_is_ordered, lemma_div_multiples_vanish,
    lemma_fundamental_div_mod, lemma_mod_bound,
};

verus! {

/// The period of a target rate, in nanoseconds: `1e9 / rate`, or zero
/// for the unthrottled rate zero.
pub open spec fn period_ns_spec(rate: u32) -> int {
    if rate == 0 {
        0
    } else {
        1_000_000_000int / (rate as int)
    }
}

/// Computes the period of a target rate.
pub fn period_ns_of_rate(rate: u32) -> (r: u64)
    ensures
        r == period_ns_spec(rate),
        rate == 0 ==> r == 0,
{
    if rate == 0 {
        0
    } else {
        1_000_000_000u64 / (rate as u64)
    }
}

/// The sleep budget of one iteration: the part of the period the body
/// did not use, and zero once the body ran over the period.
pub open spec fn sleep_budget_spec(period_ns: int, elapsed_ns: int) -> int {
    if elapsed_ns < period_ns {
        period_ns - elapsed_ns
    } else {
        0
    }
}

/// Computes the sleep budget of one iteration. A target rate of zero
/// (period zero) never sleeps.
pub fn sleep_budget(period_ns: u64, elapsed_ns: u64) -> (r: u64)
    ensures
        r == sleep_budget_spec(period_ns as int, elapsed_ns as int),
        period_ns == 0 ==> r == 0,
{
    if elapsed_ns < period_ns {
        period_ns - elapsed_ns
    } else {
        0
    }
}

/// A published throughput measurement: how many iterations ran over how
/// many nanoseconds of wall time.
pub struct RateSample {
    /// Iterations counted in the measurement interval.
    pub ticks: u64,
    /// Length of the measurement interval in nanoseconds.
    pub elapsed_ns: u64,
}

/// What one finished iteration asks of the shell: sleep for the budget,
/// and publish a fresh throughput sample if one is due.
pub struct IterationOutcome {
    /// Nanoseconds to sleep before the next iteration.
    pub sleep_ns: u64,
    /// The throughput sample to publish, when the report interval has
    /// elapsed.
    pub report: Option<RateSample>,
}

/// The state of one rate-controlled loop.
pub struct PacedLoop {
    /// Target period; zero means unthrottled.
    pub period_ns: u64,
    /// Wall-clock distance between two throughput reports.
    pub report_interval_ns: u64,
    /// Timestamp of the current iteration's start.
    pub iter_start_ns: u64,
    /// Timestamp of the current measurement interval's start.
    pub interval_start_ns: u64,
    /// Iterations finished in the current measurement interval.
    pub interval_ticks: u64,
    /// Iterations finished since the loop began.
    pub total_ticks: u64,
}

impl PacedLoop {
    /// A fresh loop for a target rate, with both clocks set to `now_ns`.
    pub fn new(rate: u32, report_interval_ns: u64, now_ns: u64) -> (r: PacedLoop)
        ensures
            r.period_ns == period_ns_spec(rate),
            r.report_interval_ns == report_interval_ns,
            r.iter_start_ns == now_ns,
            r.interval_start_ns == now_ns,
            r.interval_ticks == 0,
            r.total_ticks == 0,
    {
        let period_ns = period_ns_of_rate(rate);
        PacedLoop {
            period_ns,
            report_interval_ns,
            iter_start_ns: now_ns,
            interval_start_ns: now_ns,
            interval_ticks: 0,
            total_ticks: 0,
        }
    }

    /// Records the start timestamp of the next iteration.
    pub fn begin_iteration(&mut self, now_ns: u64)
        ensures
            final(self).iter_start_ns == now_ns,
            final(self).period_ns == old(self).period_ns,
            final(self).report_interval_ns == old(self).report_interval_ns,
            final(self).interval_start_ns == old(self).interval_start_ns,
            final(self).interval_ticks == old(self).interval_ticks,
            final(self).total_ticks == old(self).total_ticks,
    {
        self.iter_start_ns = now_ns;
    }

    /// Accounts for one finished iteration: counts it exactly once,
    /// budgets the remaining sleep time of the period, and reports the
    /// measured throughput once per report interval.
    pub fn end_iteration(&mut self, now_ns: u64) -> (r: IterationOutcome)
        requires
            now_ns >= old(self).iter_start_ns,
            now_ns >= old(self).interval_start_ns,
            old(self).total_ticks < u64::MAX,
            old(self).interval_ticks < u64::MAX,
        ensures
            final(self).total_ticks == old(self).total_ticks + 1,
            final(self).period_ns == old(self).period_ns,
            final(self).report_interval_ns == old(self).report_interval_ns,
            final(self).iter_start_ns == old(self).iter_start_ns,
            r.sleep_ns == sleep_budget_spec(
                old(self).period_ns as int,
                now_ns - old(self).iter_start_ns,
            ),
            old(self).period_ns == 0 ==> r.sleep_ns == 0,
            ({
                let interval_elapsed = now_ns - old(self).interval_start_ns;
                if interval_elapsed >= old(self).report_interval_ns {
                    &&& r.report matches Some(sample) && sample.ticks == old(self).interval_ticks
                        + 1 && sample.elapsed_ns == interval_elapsed
                    &&& final(self).interval_ticks == 0
                    &&& final(self).interval_start_ns == now_ns
                } else {
                    &&& r.report is None
                    &&& final(self).interval_ticks == old(self).interval_ticks + 1
                    &&& final(self).interval_start_ns == old(self).interval_start_ns
                }
            }),
    {
        self.total_ticks = self.total_ticks + 1;
        let sleep_ns = sleep_budget(self.period_ns, now_ns - self.iter_start_ns);
        let interval_elapsed = now_ns - self.interval_start_ns;
        let report = if interval_elapsed >= self.report_interval_ns {
            let ticks = self.interval_ticks + 1;
            self.interval_ticks = 0;
            self.interval_start_ns = now_ns;
            Some(RateSample { ticks, elapsed_ns: interval_elapsed })
        } else {
            self.interval_ticks = self.interval_ticks + 1;
            None
        };
        IterationOutcome { sleep_ns, report }
    }
}

/// When the body of an iteration finishes within the period, the body
/// time plus the sleep budget is exactly one period: a paced loop with a
/// fast body schedules every iteration to span `period_ns_spec(rate)`
/// nanoseconds, so its tick count tracks the target rate.
pub proof fn lemma_paced_iteration_exact(rate: u32, elapsed_ns: int)
    requires
        0 < rate,
        0 <= elapsed_ns <= period_ns_spec(rate),
    ensures
        elapsed_ns + sleep_budget_spec(period_ns_spec(rate), elapsed_ns) == period_ns_spec(rate),
{
}

/// Measured throughput in thousandths of an iteration per second, as
/// the renderer's label derives it from a [`RateSample`].
pub open spec fn measured_milli_hz(ticks: int, elapsed_ns: int) -> int
    recommends
        elapsed_ns > 0,
{
    ticks * 1_000_000_000_000 / elapsed_ns
}

/// Throughput convergence: over any `n` iterations whose bodies finish
/// within the period, the loop spans exactly `n` periods, and the
/// throughput measured over that span lies within five percent above
/// the target rate and never below it.
pub proof fn lemma_throughput_converges(rate: u32, n: int)
    requires
        0 < rate <= 47_000_000,
        0 < n,
    ensures
        ({
            let p = period_ns_spec(rate);
            let m = measured_milli_hz(n, n * p);
            &&& p >= 21
            &&& 1000 * rate <= m
            &&& 20 * m <= 21 * (1000 * rate)
        }),
{
    let r = rate as int;
    let p = period_ns_spec(rate);
    let billion = 1_000_000_000int;
    let trillion = 1_000_000_000_000int;
    lemma_fundamental_div_mod(billion, r);
    lemma_mod_bound(billion, r);
    assert(r * p <= billion < r * p + r);
    assert(p >= 21) by {
        lemma_div_is_ordered(21 * r, billion, r);
        lemma_div_multiples_vanish(21, r);
        assert(21 * r <= billion);
    }
    assert(n * p > 0) by (nonlinear_arith)
        requires
            0 < n,
            p >= 21,
    ;
    let m = measured_milli_hz(n, n * p);
    assert(n * trillion / (n * p) == trillion / p) by {
        lemma_div_denominator(n * trillion, n, p);
        lemma_div_multiples_vanish(trillion, n);
        assert(n * trillion / n == trillion) by {
            assert(n * trillion == trillion * n);
        }
    }
    assert(m == trillion / p);
    assert(1000 * r <= m) by {
        assert((1000 * r) * p <= 1_000_000_000_000) by (nonlinear_arith)
            requires
                r * p <= 1_000_000_000,
                0 < r,
                0 < p,
        ;
        lemma_div_is_ordered((1000 * r) * p, trillion, p);
        lemma_div_multiples_vanish(1000 * r, p);
        assert((1000 * r) * p == p * (1000 * r)) by (nonlinear_arith);
        assert((1000 * r) * p / p == 1000 * r);
    }
    assert(20 * m <= 21 * (1000 * r)) by {
        lemma_fundamental_div_mod(trillion, p);
        lemma_mod_bound(trillion, p);
        assert(p * (trillion / p) <= trillion);
        assert(p * m <= trillion);
        assert(20 * 1_000_000_000_000 <= 21000 * (r * p)) by (nonlinear_arith)
            requires
                1_000_000_000 < r * p + r,
                p >= 21,
                0 < r,
        ;
        assert(20 * m <= 21000 * r) by (nonlinear_arith)
            requires
                p * m <= 1_000_000_000_000,
                20 * 1_000_000_000_000 <= 21000 * (r * p),
                0 < p,
                0 < r,
        ;
    }
}

} // verus!
