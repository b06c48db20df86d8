//! The readiness probe's schedule.
//!
//! A freshly started target is polled at a fixed interval until one poll
//! answers successfully or a deadline elapses. The polling itself is a
//! network request made outside the library; the schedule — which attempt
//! runs at which elapsed time, when the deadline cuts the loop off, and how
//! many attempts are ever made — is decided here over the sequence of poll
//! answers.

use vstd::prelude::*;

verus! {

/// Errors of the readiness probe: the transport failed outright, or the
/// target never answered successfully within the allowed time.
#[derive(Debug)]
pub enum HttpError {
    Reqwest(String),
    Timeout,
}

/// Ceiling division, used for the largest number of poll attempts that fit
/// into the deadline.
pub open spec fn ceil_div(a: int, b: int) -> int
    recommends
        b > 0,
{
    (a + b - 1) / b
}

/// The probe's schedule from attempt `i` on, given the answer of every
/// potential poll: attempt `i` runs only while `i * interval` stays under
/// the deadline; a successful answer stops the probe at once, a failed one
/// is followed by a sleep of one interval. The result says whether the
/// target answered and how many attempts were made in all.
pub open spec fn spec_probe_from(
    polls: Seq<bool>,
    check_interval_ms: u64,
    max_check_time_ms: u64,
    i: nat,
) -> (bool, nat)
    decreases polls.len() - i,
{
    if i >= polls.len() || i * check_interval_ms >= max_check_time_ms {
        (false, i)
    } else if polls[i as int] {
        (true, (i + 1) as nat)
    } else {
        spec_probe_from(polls, check_interval_ms, max_check_time_ms, (i + 1) as nat)
    }
}

/// Runs the probe's schedule over the answers `polls`, where `polls[i]` says
/// whether the poll issued at elapsed time `i * check_interval_ms` answers
/// successfully. Returns the probe's verdict — ready, or `Timeout` once
/// `max_check_time_ms` has elapsed without a successful answer — together
/// with the number of attempts issued.
#[verifier::loop_isolation(false)]
pub fn run_probe(polls: &Vec<bool>, check_interval_ms: u64, max_check_time_ms: u64) -> (r: (
    Result<(), HttpError>,
    usize,
))
    requires
        check_interval_ms > 0,
        check_interval_ms <= u64::MAX - max_check_time_ms,
        polls@.len() * check_interval_ms >= max_check_time_ms,
    ensures
        ({
            let (ready, attempts) = spec_probe_from(polls@, check_interval_ms, max_check_time_ms, 0);
            &&& r.0 is Ok <==> ready
            &&& r.1 == attempts
            &&& r.0 matches Err(e) ==> e is Timeout
        }),
{
    let n = polls.len();
    let mut i: usize = 0;
    let mut elapsed_ms: u64 = 0;
    while i < n && elapsed_ms < max_check_time_ms
        invariant
            i <= n,
            elapsed_ms == i * check_interval_ms,
            spec_probe_from(polls@, check_interval_ms, max_check_time_ms, 0) == spec_probe_from(
                polls@,
                check_interval_ms,
                max_check_time_ms,
                i as nat,
            ),
        decreases n - i,
    {
        if polls[i] {
            return (Ok(()), i + 1);
        }
        proof {
            assert((i + 1) * check_interval_ms == i * check_interval_ms + check_interval_ms)
                by (nonlinear_arith);
            assert(elapsed_ms + check_interval_ms <= u64::MAX) by {
                assert(elapsed_ms < max_check_time_ms);
            };
        }
        i = i + 1;
        elapsed_ms = elapsed_ms + check_interval_ms;
    }
    proof {
        if i >= n {
            assert(i * check_interval_ms >= n * check_interval_ms) by (nonlinear_arith)
                requires i >= n, check_interval_ms > 0;
        }
    }
    (Err(HttpError::Timeout), i)
}

/// The probe never issues more than `⌈deadline / interval⌉ + 1` attempts,
/// whatever the target answers: every attempt but possibly the last starts
/// strictly inside the deadline.
pub proof fn lemma_probe_attempt_bound(polls: Seq<bool>, check_interval_ms: u64, max_check_time_ms: u64)
    requires
        check_interval_ms > 0,
    ensures
        spec_probe_from(polls, check_interval_ms, max_check_time_ms, 0).1 <= ceil_div(
            max_check_time_ms as int,
            check_interval_ms as int,
        ) + 1,
{
    lemma_probe_attempt_bound_from(polls, check_interval_ms, max_check_time_ms, 0);
}

/// Helper induction for [`lemma_probe_attempt_bound`]: from any attempt
/// index that is still within the ceiling bound, the schedule ends within
/// it too.
proof fn lemma_probe_attempt_bound_from(
    polls: Seq<bool>,
    check_interval_ms: u64,
    max_check_time_ms: u64,
    i: nat,
)
    requires
        check_interval_ms > 0,
        i <= ceil_div(max_check_time_ms as int, check_interval_ms as int) + 1,
    ensures
        spec_probe_from(polls, check_interval_ms, max_check_time_ms, i).1 <= ceil_div(
            max_check_time_ms as int,
            check_interval_ms as int,
        ) + 1,
    decreases polls.len() - i,
{
    let interval = check_interval_ms as int;
    let max = max_check_time_ms as int;
    if i < polls.len() && i * interval < max {
        assert(i + 1 <= ceil_div(max, interval)) by (nonlinear_arith)
            requires
                interval > 0,
                i * interval < max,
        ;
        if !polls[i as int] {
            lemma_probe_attempt_bound_from(
                polls,
                check_interval_ms,
                max_check_time_ms,
                (i + 1) as nat,
            );
        }
    }
}

} // verus!
