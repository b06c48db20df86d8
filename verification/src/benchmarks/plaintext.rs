//! The plain-text scenario: every iteration fetches one fixed URL and the
//! response must be exactly the canonical greeting.

use vstd::prelude::*;
use vstd::string::StringExecFns;

use crate::results::{BenchmarkOkResult, BenchmarkResult, ResultModel};
use crate::runner::{Benchmark, BodyModel, RequestModel, RequestSpec, ResponseData, ResponseModel};

verus! {

/// The body every iteration must answer with.
pub open spec fn expected_text() -> Seq<char> {
    "Hello, World!"@
}

/// The message reported when the body is well-formed text but not the
/// expected greeting.
pub open spec fn wrong_text_message(found: Seq<char>) -> Seq<char> {
    "Expected \"Hello, World!\" found \""@ + found + "\""@
}

/// The plain-text scenario. It holds no fixtures: every iteration issues
/// the same request and expects the same body.
pub struct PlaintextBenchmark {}

impl PlaintextBenchmark {
    /// Creates the scenario.
    pub fn new() -> (r: Self) {
        PlaintextBenchmark {}
    }
}

impl Benchmark for PlaintextBenchmark {
    open spec fn valid_iteration(&self, iteration: int) -> bool {
        true
    }

    open spec fn expects(&self, response: ResponseModel) -> bool {
        response.body is Text
    }

    open spec fn spec_request(&self, iteration: int) -> RequestModel {
        RequestModel::Get { url: "http://web:8000/benchmark/plain-text"@ }
    }

    open spec fn spec_check(&self, iteration: int, elapsed_ms: u64, response: ResponseModel) -> ResultModel {
        if response.status != 200 {
            ResultModel::InvalidStatusCode(response.status as int)
        } else {
            match response.body {
                BodyModel::Text(found) => if found == expected_text() {
                    ResultModel::Success { time_ms: elapsed_ms as int, iterations: 1 }
                } else {
                    ResultModel::InvalidResponse(wrong_text_message(found))
                },
                _ => arbitrary(),
            }
        }
    }

    fn make_request(&self, iteration: usize) -> (r: RequestSpec) {
        RequestSpec::Get { url: String::from_str("http://web:8000/benchmark/plain-text") }
    }

    fn check_response(&self, iteration: usize, elapsed_ms: u64, response: ResponseData) -> (r:
        BenchmarkResult) {
        if response.status != 200 {
            return BenchmarkResult::InvalidStatusCode(response.status);
        }
        match response.body {
            crate::runner::ResponseBody::Text(found) => {
                if found == String::from_str("Hello, World!") {
                    BenchmarkResult::Success(
                        BenchmarkOkResult { time_ms: elapsed_ms, iterations: 1 },
                    )
                } else {
                    let msg = String::from_str("Expected \"Hello, World!\" found \"").concat(
                        found.as_str(),
                    ).concat("\"");
                    BenchmarkResult::InvalidResponse(msg)
                }
            },
            _ => {
                // Excluded by `expects`: this scenario is only handed the
                // body shape its own request asked for.
                proof {
                    assert(false);
                }
                BenchmarkResult::InvalidResponse(String::new())
            },
        }
    }
}

} // verus!
