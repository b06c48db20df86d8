//! The verdict of one scenario invocation or of a whole batch, and the
//! completion status of one concurrent task.

use vstd::prelude::*;

verus! {

/// Payload of a successful benchmark run: the measured wall-clock time in
/// milliseconds and how many iterations the batch ran.
pub struct BenchmarkOkResult {
    pub time_ms: u64,
    pub iterations: usize,
}

/// Tagged verdict of one scenario invocation or of a whole batch.
pub enum BenchmarkResult {
    Success(BenchmarkOkResult),
    InvalidStatusCode(u16),
    InvalidResponse(String),
    UnhandledError(String),
}

/// Mathematical model of a [`BenchmarkResult`].
pub enum ResultModel {
    Success { time_ms: int, iterations: int },
    InvalidStatusCode(int),
    InvalidResponse(Seq<char>),
    UnhandledError(Seq<char>),
}

impl View for BenchmarkResult {
    type V = ResultModel;

    open spec fn view(&self) -> ResultModel {
        match self {
            BenchmarkResult::Success(ok) => ResultModel::Success {
                time_ms: ok.time_ms as int,
                iterations: ok.iterations as int,
            },
            BenchmarkResult::InvalidStatusCode(code) => ResultModel::InvalidStatusCode(
                *code as int,
            ),
            BenchmarkResult::InvalidResponse(msg) => ResultModel::InvalidResponse(msg@),
            BenchmarkResult::UnhandledError(msg) => ResultModel::UnhandledError(msg@),
        }
    }
}

impl BenchmarkResult {
    /// Whether this verdict reports success.
    pub fn is_success(&self) -> (r: bool)
        ensures
            r == self@ is Success,
    {
        match self {
            BenchmarkResult::Success(_) => true,
            _ => false,
        }
    }
}

/// How one concurrent task ended: with a verdict, or not at all (the task
/// itself failed before it could produce one, for instance because its
/// request never went out or the task was torn down).
pub enum TaskCompletion {
    Finished(BenchmarkResult),
    Failed(String),
}

/// Mathematical model of a [`TaskCompletion`].
pub enum CompletionModel {
    Finished(ResultModel),
    Failed(Seq<char>),
}

impl View for TaskCompletion {
    type V = CompletionModel;

    open spec fn view(&self) -> CompletionModel {
        match self {
            TaskCompletion::Finished(r) => CompletionModel::Finished(r@),
            TaskCompletion::Failed(msg) => CompletionModel::Failed(msg@),
        }
    }
}

} // verus!
