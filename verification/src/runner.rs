//! The concurrent execution engine's decision core.
//!
//! A batch run proceeds in five steps: a synchronous warm-up invocation, the
//! start of the timing window, a fan-out of `iterations` concurrent tasks, a
//! fan-in that waits for every task, and a reduction of the collected
//! completions into one verdict. The fan-out and fan-in themselves are
//! asynchronous plumbing outside the library; what they must decide — whether
//! the warm-up verdict aborts the batch, and which verdict a sequence of task
//! completions reduces to — is here, on plain values.

use vstd::prelude::*;
use vstd::string::StringExecFns;

use crate::results::{
    BenchmarkOkResult, BenchmarkResult, CompletionModel, ResultModel, TaskCompletion,
};

verus! {

/// What the engine does after the warm-up invocation: launch the concurrent
/// batch, or return the warm-up's own failing verdict with no task dispatched.
pub enum EngineStep {
    Proceed,
    ReturnEarly(BenchmarkResult),
}

/// The view of a matrix held as rows of raw 64-bit entries.
pub open spec fn matrix_view(m: Seq<Vec<u64>>) -> Seq<Seq<u64>> {
    m.map_values(|row: Vec<u64>| row@)
}

/// One request a scenario asks the transport to issue: a plain fetch of a
/// URL, or a post of a pair of matrices to be multiplied. Matrix entries are
/// carried as raw 64-bit patterns; the transport owns their numeric
/// encoding.
pub enum RequestSpec {
    Get { url: String },
    PostMatrixPair { url: String, matrix1: Vec<Vec<u64>>, matrix2: Vec<Vec<u64>> },
}

/// Mathematical model of a [`RequestSpec`].
pub enum RequestModel {
    Get { url: Seq<char> },
    PostMatrixPair { url: Seq<char>, matrix1: Seq<Seq<u64>>, matrix2: Seq<Seq<u64>> },
}

impl View for RequestSpec {
    type V = RequestModel;

    open spec fn view(&self) -> RequestModel {
        match self {
            RequestSpec::Get { url } => RequestModel::Get { url: url@ },
            RequestSpec::PostMatrixPair { url, matrix1, matrix2 } => RequestModel::PostMatrixPair {
                url: url@,
                matrix1: matrix_view(matrix1@),
                matrix2: matrix_view(matrix2@),
            },
        }
    }
}

/// A matrix body as the transport hands it back: decoded into rows of raw
/// 64-bit entries, or refused with the decoder's message.
pub enum MatrixPayload {
    Parsed(Vec<Vec<u64>>),
    Malformed(String),
}

/// Mathematical model of a [`MatrixPayload`].
pub enum PayloadModel {
    Parsed(Seq<Seq<u64>>),
    Malformed(Seq<char>),
}

impl View for MatrixPayload {
    type V = PayloadModel;

    open spec fn view(&self) -> PayloadModel {
        match self {
            MatrixPayload::Parsed(m) => PayloadModel::Parsed(matrix_view(m@)),
            MatrixPayload::Malformed(msg) => PayloadModel::Malformed(msg@),
        }
    }
}

/// The body of one response, in the shape the scenario that issued the
/// request expects to validate.
pub enum ResponseBody {
    Text(String),
    Bytes(Vec<u8>),
    Matrix(MatrixPayload),
}

/// Mathematical model of a [`ResponseBody`].
pub enum BodyModel {
    Text(Seq<char>),
    Bytes(Seq<u8>),
    Matrix(PayloadModel),
}

impl View for ResponseBody {
    type V = BodyModel;

    open spec fn view(&self) -> BodyModel {
        match self {
            ResponseBody::Text(t) => BodyModel::Text(t@),
            ResponseBody::Bytes(b) => BodyModel::Bytes(b@),
            ResponseBody::Matrix(p) => BodyModel::Matrix(p@),
        }
    }
}

/// One response as a scenario validates it: the status code and the body.
pub struct ResponseData {
    pub status: u16,
    pub body: ResponseBody,
}

/// Mathematical model of a [`ResponseData`].
pub struct ResponseModel {
    pub status: u16,
    pub body: BodyModel,
}

impl View for ResponseData {
    type V = ResponseModel;

    open spec fn view(&self) -> ResponseModel {
        ResponseModel { status: self.status, body: self.body@ }
    }
}

/// One benchmark scenario: it builds the request for a given iteration and
/// validates the response against that iteration's expected value. The
/// engine — and the transport around it — is written against this interface
/// alone, never against a concrete scenario.
pub trait Benchmark: Sized {
    /// Which iteration indices the scenario holds fixtures for.
    spec fn valid_iteration(&self, iteration: int) -> bool;

    /// Which response bodies the scenario can validate: each scenario reads
    /// the one body shape its own request asked the transport to decode.
    spec fn expects(&self, response: ResponseModel) -> bool;

    /// The request built for `iteration`.
    spec fn spec_request(&self, iteration: int) -> RequestModel;

    /// The verdict for `iteration`'s response, when validated at `elapsed_ms`
    /// milliseconds after the request went out.
    spec fn spec_check(&self, iteration: int, elapsed_ms: u64, response: ResponseModel) -> ResultModel;

    /// Builds the request for one iteration.
    fn make_request(&self, iteration: usize) -> (r: RequestSpec)
        requires
            self.valid_iteration(iteration as int),
        ensures
            r@ == self.spec_request(iteration as int),
    ;

    /// Validates one iteration's response and reports the verdict.
    fn check_response(&self, iteration: usize, elapsed_ms: u64, response: ResponseData) -> (r:
        BenchmarkResult)
        requires
            self.valid_iteration(iteration as int),
            self.expects(response@),
        ensures
            r@ == self.spec_check(iteration as int, elapsed_ms, response@),
    ;
}

/// The warm-up phase of the engine, written against the scenario interface:
/// validate the warm-up response, and decide whether the concurrent batch is
/// launched or the warm-up's own failing verdict is returned with no task
/// dispatched.
pub fn run_warmup<B: Benchmark>(benchmark: &B, elapsed_ms: u64, response: ResponseData) -> (step:
    EngineStep)
    requires
        benchmark.valid_iteration(0),
        benchmark.expects(response@),
    ensures
        ({
            let verdict = benchmark.spec_check(0, elapsed_ms, response@);
            &&& verdict is Success ==> step is Proceed
            &&& !(verdict is Success) ==> (step matches EngineStep::ReturnEarly(r) && r@ == verdict)
        }),
{
    let warmup = benchmark.check_response(0, elapsed_ms, response);
    check_warmup(warmup)
}

/// The message a batch reports when a task failed outright rather than
/// returning a verdict, with the task's own error appended.
pub open spec fn failure_message(err: Seq<char>) -> Seq<char> {
    "one or more requests failed: "@ + err
}

/// The models of a sequence of task completions.
pub open spec fn completions_view(s: Seq<TaskCompletion>) -> Seq<CompletionModel> {
    s.map_values(|c: TaskCompletion| c@)
}

/// The verdict a batch of task completions reduces to, scanned in the given
/// (completion) order: the first non-success verdict, or the verdict of the
/// first task that failed outright, and if neither occurs a success carrying
/// the batch's elapsed time and iteration count.
pub open spec fn spec_reduce(
    completions: Seq<CompletionModel>,
    time_ms: u64,
    iterations: usize,
) -> ResultModel
    decreases completions.len(),
{
    if completions.len() == 0 {
        ResultModel::Success { time_ms: time_ms as int, iterations: iterations as int }
    } else {
        match completions[0] {
            CompletionModel::Finished(r) => if r is Success {
                spec_reduce(completions.drop_first(), time_ms, iterations)
            } else {
                r
            },
            CompletionModel::Failed(err) => ResultModel::InvalidResponse(failure_message(err)),
        }
    }
}

/// Decides whether the batch is launched at all: a warm-up that did not
/// succeed is returned as the engine's verdict, and no task is dispatched.
pub fn check_warmup(warmup: BenchmarkResult) -> (step: EngineStep)
    ensures
        warmup@ is Success ==> step is Proceed,
        !(warmup@ is Success) ==> (step matches EngineStep::ReturnEarly(r) && r@ == warmup@),
{
    if warmup.is_success() {
        EngineStep::Proceed
    } else {
        EngineStep::ReturnEarly(warmup)
    }
}

/// Reduces the completions of a whole batch, in completion order, to one
/// verdict, as [`spec_reduce`] states. Every completion is consumed: the scan
/// takes place only once every task has been waited for.
#[verifier::loop_isolation(false)]
pub fn reduce_results(results: Vec<TaskCompletion>, time_ms: u64, iterations: usize) -> (r:
    BenchmarkResult)
    ensures
        r@ == spec_reduce(completions_view(results@), time_ms, iterations),
{
    let ghost all = completions_view(results@);
    let mut remaining = results;
    let n = remaining.len();
    let mut i: usize = 0;
    proof {
        assert(all.skip(0) =~= all);
    }
    while i < n
        invariant
            i <= n,
            n == remaining@.len(),
            all == completions_view(remaining@),
            spec_reduce(all.skip(i as int), time_ms, iterations) == spec_reduce(
                all,
                time_ms,
                iterations,
            ),
        decreases n - i,
    {
        let ghost rest = all.skip(i as int);
        proof {
            assert(all[i as int] == remaining@[i as int]@);
            assert(rest[0] == all[i as int]);
            assert(rest.drop_first() =~= all.skip(i as int + 1));
        }
        let failing = match &remaining[i] {
            TaskCompletion::Finished(r) => !r.is_success(),
            TaskCompletion::Failed(_) => true,
        };
        if failing {
            let found = remaining.remove(i);
            proof {
                assert(found@ == rest[0]);
            }
            match found {
                TaskCompletion::Finished(r) => {
                    return r;
                },
                TaskCompletion::Failed(err) => {
                    let msg = String::from_str("one or more requests failed: ").concat(
                        err.as_str(),
                    );
                    return BenchmarkResult::InvalidResponse(msg);
                },
            }
        }
        i = i + 1;
    }
    proof {
        assert(all.skip(n as int) =~= Seq::<CompletionModel>::empty());
    }
    BenchmarkResult::Success(BenchmarkOkResult { time_ms, iterations })
}

/// An always-succeeding batch reduces to success, with the batch's own
/// iteration count and elapsed time, whatever the length of the batch.
pub proof fn lemma_reduce_all_success(
    completions: Seq<CompletionModel>,
    time_ms: u64,
    iterations: usize,
)
    requires
        forall|j: int|
            0 <= j < completions.len() ==> (#[trigger] completions[j] matches
                CompletionModel::Finished(r) && r is Success),
    ensures
        spec_reduce(completions, time_ms, iterations) == (ResultModel::Success {
            time_ms: time_ms as int,
            iterations: iterations as int,
        }),
    decreases completions.len(),
{
    if completions.len() > 0 {
        lemma_reduce_all_success(completions.drop_first(), time_ms, iterations);
    }
}

/// If exactly one task of the batch returned a failing verdict and every
/// other task succeeded, the batch reduces to that failing verdict — the
/// siblings' completions are all still consumed, none is cancelled.
pub proof fn lemma_reduce_single_failure(
    completions: Seq<CompletionModel>,
    k: int,
    time_ms: u64,
    iterations: usize,
)
    requires
        0 <= k < completions.len(),
        completions[k] matches CompletionModel::Finished(r) && !(r is Success),
        forall|j: int|
            0 <= j < completions.len() && j != k ==> (#[trigger] completions[j] matches
                CompletionModel::Finished(r) && r is Success),
    ensures
        completions[k] matches CompletionModel::Finished(r) && spec_reduce(
            completions,
            time_ms,
            iterations,
        ) == r,
    decreases completions.len(),
{
    if k > 0 {
        lemma_reduce_single_failure(completions.drop_first(), k - 1, time_ms, iterations);
    }
}

} // verus!
