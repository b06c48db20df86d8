//! The binary-download scenario: every iteration fetches one fixed URL and
//! the returned bytes must equal, byte for byte, the asset the target serves.

use vstd::prelude::*;
use vstd::string::StringExecFns;

use crate::decimal::{dec_chars, usize_to_string};
use crate::results::{BenchmarkOkResult, BenchmarkResult, ResultModel};
use crate::runner::{
    Benchmark, BodyModel, RequestModel, RequestSpec, ResponseBody, ResponseData, ResponseModel,
};

verus! {

/// The message reported when the body has the wrong length.
pub open spec fn wrong_length_message(expected: int, found: int) -> Seq<char> {
    "Expected bytes length "@ + dec_chars(expected) + " found bytes len "@ + dec_chars(found)
}

/// The message reported when the body has the right length but differs.
pub open spec fn data_mismatch_message() -> Seq<char> {
    "Bytes data mismatch"@
}

/// The binary-download scenario, holding the bytes every response must
/// reproduce.
pub struct DownloadBinaryBenchmark {
    binary_data: Vec<u8>,
}

impl DownloadBinaryBenchmark {
    /// The bytes the target is expected to serve.
    pub closed spec fn data(&self) -> Seq<u8> {
        self.binary_data@
    }

    /// Creates the scenario around the asset's bytes, read by the caller.
    pub fn new(binary_data: Vec<u8>) -> (r: Self)
        ensures
            r.data() == binary_data@,
    {
        DownloadBinaryBenchmark { binary_data }
    }
}

/// Whether two byte strings are equal, decided in one pass.
fn bytes_equal(a: &Vec<u8>, b: &Vec<u8>) -> (r: bool)
    ensures
        r == (a@ == b@),
{
    if a.len() != b.len() {
        proof {
            assert(a@.len() != b@.len());
        }
        return false;
    }
    let n = a.len();
    let mut i: usize = 0;
    while i < n
        invariant
            i <= n,
            n == a@.len() == b@.len(),
            forall|j: int| 0 <= j < i ==> a@[j] == b@[j],
        decreases n - i,
    {
        if a[i] != b[i] {
            return false;
        }
        i = i + 1;
    }
    proof {
        assert(a@ =~= b@);
    }
    true
}

impl Benchmark for DownloadBinaryBenchmark {
    open spec fn valid_iteration(&self, iteration: int) -> bool {
        true
    }

    open spec fn expects(&self, response: ResponseModel) -> bool {
        response.body is Bytes
    }

    open spec fn spec_request(&self, iteration: int) -> RequestModel {
        RequestModel::Get { url: "http://web:8000/benchmark/download-binary"@ }
    }

    open spec fn spec_check(&self, iteration: int, elapsed_ms: u64, response: ResponseModel) -> ResultModel {
        if response.status != 200 {
            ResultModel::InvalidStatusCode(response.status as int)
        } else {
            match response.body {
                BodyModel::Bytes(found) => if found == self.data() {
                    ResultModel::Success { time_ms: elapsed_ms as int, iterations: 1 }
                } else if found.len() != self.data().len() {
                    ResultModel::InvalidResponse(
                        wrong_length_message(self.data().len() as int, found.len() as int),
                    )
                } else {
                    ResultModel::InvalidResponse(data_mismatch_message())
                },
                _ => arbitrary(),
            }
        }
    }

    fn make_request(&self, iteration: usize) -> (r: RequestSpec) {
        RequestSpec::Get { url: String::from_str("http://web:8000/benchmark/download-binary") }
    }

    fn check_response(&self, iteration: usize, elapsed_ms: u64, response: ResponseData) -> (r:
        BenchmarkResult) {
        if response.status != 200 {
            return BenchmarkResult::InvalidStatusCode(response.status);
        }
        match response.body {
            ResponseBody::Bytes(found) => {
                if bytes_equal(&found, &self.binary_data) {
                    BenchmarkResult::Success(
                        BenchmarkOkResult { time_ms: elapsed_ms, iterations: 1 },
                    )
                } else if found.len() != self.binary_data.len() {
                    let msg = String::from_str("Expected bytes length ").concat(
                        usize_to_string(self.binary_data.len()).as_str(),
                    ).concat(" found bytes len ").concat(usize_to_string(found.len()).as_str());
                    BenchmarkResult::InvalidResponse(msg)
                } else {
                    BenchmarkResult::InvalidResponse(String::from_str("Bytes data mismatch"))
                }
            },
            _ => {
                // Excluded by `expects`: this scenario is only handed the
                // body shape its own request asked for.
                proof {
                    assert(false);
                }
                BenchmarkResult::InvalidResponse(String::new())
            },
        }
    }
}

} // verus!
