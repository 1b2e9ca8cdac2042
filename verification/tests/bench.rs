use sierpinski_carpet::bench::{benchmark_step, Timing};

#[test]
fn a_round_reports_what_it_painted() {
    let timing = benchmark_step(2, 3).unwrap();
    assert_eq!(timing.steps, 2);
    assert_eq!(timing.side, 9);
    assert_eq!(timing.runs, 3);
    assert!(timing.total_ms >= 0);
    assert!(timing.average_ms() <= timing.total_ms);
}

#[test]
fn a_round_of_few_steps_paints_three_pixels_a_side() {
    assert_eq!(benchmark_step(0, 1).unwrap().side, 3);
    assert_eq!(benchmark_step(1, 1).unwrap().side, 3);
}

#[test]
fn a_round_without_runs_takes_the_time_of_nothing() {
    let timing = benchmark_step(4, 0).unwrap();
    assert_eq!((timing.steps, timing.side, timing.runs), (4, 81, 0));
}

#[test]
fn a_round_beyond_the_address_space_is_refused() {
    assert_eq!(benchmark_step(20, 1), None);
    assert_eq!(benchmark_step(21, 1), None);
}

#[test]
fn the_mean_is_rounded_toward_zero() {
    let timing = Timing { steps: 3, side: 27, runs: 100, total_ms: 250 };
    assert_eq!(timing.average_ms(), 2);
    assert_eq!(Timing { total_ms: 99, ..timing }.average_ms(), 0);
    assert_eq!(Timing { total_ms: 100, ..timing }.average_ms(), 1);
    assert_eq!(Timing { total_ms: -250, ..timing }.average_ms(), -2);
    assert_eq!(Timing { total_ms: i64::MIN, runs: 1, ..timing }.average_ms(), i64::MIN);
    assert_eq!(Timing { total_ms: i64::MAX, runs: u32::MAX, ..timing }.average_ms(), 2147483648);
}
