use chiprust_cli::pacing::{period_ns_of_rate, sleep_budget, PacedLoop};

#[test]
fn period_of_a_rate_is_its_reciprocal_in_nanoseconds() {
    assert_eq!(period_ns_of_rate(0), 0);
    assert_eq!(period_ns_of_rate(1), 1_000_000_000);
    assert_eq!(period_ns_of_rate(60), 16_666_666);
    assert_eq!(period_ns_of_rate(1_000_000_000), 1);
}

#[test]
fn sleep_budget_is_the_unused_part_of_the_period() {
    assert_eq!(sleep_budget(100, 30), 70);
    assert_eq!(sleep_budget(100, 100), 0);
    assert_eq!(sleep_budget(100, 250), 0);
    assert_eq!(sleep_budget(0, 0), 0);
}

#[test]
fn fast_body_iterations_span_exactly_one_period() {
    // The deterministic core of rate convergence: body time plus sleep
    // budget equals the period whenever the body is fast enough.
    let p = period_ns_of_rate(60);
    for elapsed in [0u64, 1, 1000, p] {
        assert_eq!(elapsed + sleep_budget(p, elapsed), p);
    }
}

#[test]
fn unthrottled_loop_never_sleeps() {
    let mut lp = PacedLoop::new(0, 500_000_000, 0);
    let mut now = 0u64;
    let mut total_sleep = 0u64;
    for _ in 0..1000 {
        lp.begin_iteration(now);
        now += 137; // arbitrary body time
        let outcome = lp.end_iteration(now);
        total_sleep += outcome.sleep_ns;
    }
    assert_eq!(total_sleep, 0);
    assert_eq!(lp.total_ticks, 1000);
}

#[test]
fn every_iteration_is_counted_exactly_once() {
    let mut lp = PacedLoop::new(60, 500_000_000, 0);
    let p = lp.period_ns;
    let mut now = 0u64;
    for i in 0..250 {
        lp.begin_iteration(now);
        now += 1000;
        let outcome = lp.end_iteration(now);
        assert_eq!(outcome.sleep_ns, p - 1000);
        now += outcome.sleep_ns;
        assert_eq!(lp.total_ticks, i + 1);
    }
    assert_eq!(lp.total_ticks, 250);
}

#[test]
fn throughput_report_comes_once_per_interval() {
    let mut lp = PacedLoop::new(100, 1_000_000_000, 0);
    let p = lp.period_ns; // 10_000_000
    let mut now = 0u64;
    let mut reports = Vec::new();
    for _ in 0..200 {
        lp.begin_iteration(now);
        now += 1_000_000;
        let outcome = lp.end_iteration(now);
        now += outcome.sleep_ns;
        if let Some(sample) = outcome.report {
            reports.push(sample);
        }
    }
    // Each iteration spans one period; the first iteration to finish a
    // full second past the interval start is the 101st, which closes
    // the interval. The 200 iterations span just under two seconds, so
    // exactly one report is published.
    assert_eq!(p, 10_000_000);
    assert_eq!(reports.len(), 1);
    assert_eq!(reports[0].ticks, 101);
    assert_eq!(reports[0].elapsed_ns, 1_001_000_000);
    // The measured rate converges on the target.
    let hz = reports[0].ticks as f64 * 1e9 / reports[0].elapsed_ns as f64;
    assert!((hz - 100.0).abs() < 100.0 * 0.05);
}
