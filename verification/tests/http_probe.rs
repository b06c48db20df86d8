//! Tests of the readiness probe's schedule.

use benchmark_runner::http::{run_probe, HttpError};

#[test]
fn target_ready_after_two_intervals_succeeds_within_the_deadline() {
    // The deadline covers more than three intervals; the target starts
    // answering at the third poll, issued after two full intervals.
    let polls = vec![false, false, true, true];
    let (verdict, attempts) = run_probe(&polls, 100, 350);
    assert!(verdict.is_ok());
    assert_eq!(attempts, 3);
}

#[test]
fn target_that_never_answers_times_out_within_the_attempt_bound() {
    let polls = vec![false; 8];
    let (verdict, attempts) = run_probe(&polls, 100, 800);
    assert!(matches!(verdict, Err(HttpError::Timeout)));
    // No more than ceil(max / interval) + 1 attempts: here ceil is 8.
    assert_eq!(attempts, 8);
}

#[test]
fn deadline_shorter_than_one_interval_still_allows_the_first_poll() {
    let polls = vec![true];
    let (verdict, attempts) = run_probe(&polls, 100, 50);
    assert!(verdict.is_ok());
    assert_eq!(attempts, 1);

    let polls = vec![false];
    let (verdict, attempts) = run_probe(&polls, 100, 50);
    assert!(matches!(verdict, Err(HttpError::Timeout)));
    assert_eq!(attempts, 1);
}

#[test]
fn zero_deadline_polls_nothing_and_times_out() {
    let polls: Vec<bool> = Vec::new();
    let (verdict, attempts) = run_probe(&polls, 500, 0);
    assert!(matches!(verdict, Err(HttpError::Timeout)));
    assert_eq!(attempts, 0);
}

#[test]
fn first_successful_poll_stops_the_probe() {
    let polls = vec![true, false, false];
    let (verdict, attempts) = run_probe(&polls, 250, 750);
    assert!(verdict.is_ok());
    assert_eq!(attempts, 1);
}
