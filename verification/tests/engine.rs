//! Tests of the execution engine's warm-up decision and batch reduction.

use benchmark_runner::results::{BenchmarkOkResult, BenchmarkResult, TaskCompletion};
use benchmark_runner::runner::{
    check_warmup, reduce_results, run_warmup, Benchmark, EngineStep, RequestSpec, ResponseBody,
    ResponseData,
};
use benchmark_runner::benchmarks::plaintext::PlaintextBenchmark;

fn success(time_ms: u64, iterations: usize) -> BenchmarkResult {
    BenchmarkResult::Success(BenchmarkOkResult { time_ms, iterations })
}

fn finished_success() -> TaskCompletion {
    TaskCompletion::Finished(success(1, 1))
}

#[test]
fn all_success_batch_reduces_to_success_with_iteration_count() {
    for n in [0usize, 1, 2, 10, 100] {
        let completions: Vec<TaskCompletion> = (0..n).map(|_| finished_success()).collect();
        match reduce_results(completions, 42, n) {
            BenchmarkResult::Success(ok) => {
                assert_eq!(ok.iterations, n);
                assert_eq!(ok.time_ms, 42);
            }
            _ => panic!("an all-success batch must reduce to success"),
        }
    }
}

#[test]
fn failing_warmup_is_returned_and_nothing_is_dispatched() {
    // A driver shaped like the engine's caller: it counts scenario
    // invocations and dispatches the batch only when the warm-up decision
    // says to proceed.
    let mut calls = 0usize;
    let mut validate = |status: u16| -> BenchmarkResult {
        calls += 1;
        if status == 200 {
            success(0, 1)
        } else {
            BenchmarkResult::InvalidStatusCode(status)
        }
    };

    let n = 8usize;
    let warmup = validate(500);
    let verdict = match check_warmup(warmup) {
        EngineStep::ReturnEarly(r) => r,
        EngineStep::Proceed => {
            let completions: Vec<TaskCompletion> =
                (0..n).map(|_| TaskCompletion::Finished(validate(200))).collect();
            reduce_results(completions, 0, n)
        }
    };

    assert!(matches!(verdict, BenchmarkResult::InvalidStatusCode(500)));
    assert_eq!(calls, 1, "only the warm-up call may have run");
}

#[test]
fn successful_warmup_dispatches_every_task() {
    let mut calls = 0usize;
    let mut validate = |status: u16| -> BenchmarkResult {
        calls += 1;
        if status == 200 {
            success(0, 1)
        } else {
            BenchmarkResult::InvalidStatusCode(status)
        }
    };

    let n = 8usize;
    let warmup = validate(200);
    let verdict = match check_warmup(warmup) {
        EngineStep::ReturnEarly(r) => r,
        EngineStep::Proceed => {
            let completions: Vec<TaskCompletion> =
                (0..n).map(|_| TaskCompletion::Finished(validate(200))).collect();
            reduce_results(completions, 5, n)
        }
    };

    match verdict {
        BenchmarkResult::Success(ok) => assert_eq!(ok.iterations, n),
        _ => panic!("an all-success run must succeed"),
    }
    assert_eq!(calls, n + 1, "the warm-up call plus one call per task");
}

#[test]
fn single_invalid_response_decides_the_batch_and_no_sibling_is_cancelled() {
    let n = 9usize;
    let mut calls = 0usize;
    let mut completions: Vec<TaskCompletion> = Vec::new();
    for i in 0..n {
        calls += 1;
        if i == 4 {
            completions.push(TaskCompletion::Finished(BenchmarkResult::InvalidResponse(
                "wrong body".to_string(),
            )));
        } else {
            completions.push(finished_success());
        }
    }
    // Every task ran to completion before the reduction saw any of them.
    assert_eq!(calls, n);
    match reduce_results(completions, 3, n) {
        BenchmarkResult::InvalidResponse(msg) => assert_eq!(msg, "wrong body"),
        _ => panic!("the one failing verdict must decide the batch"),
    }
}

#[test]
fn first_failing_completion_in_completion_order_wins() {
    let completions = vec![
        finished_success(),
        TaskCompletion::Finished(BenchmarkResult::InvalidStatusCode(503)),
        TaskCompletion::Finished(BenchmarkResult::InvalidResponse("later".to_string())),
    ];
    assert!(matches!(
        reduce_results(completions, 0, 3),
        BenchmarkResult::InvalidStatusCode(503)
    ));
}

#[test]
fn outright_task_failure_folds_into_the_batch_verdict() {
    let completions = vec![
        finished_success(),
        TaskCompletion::Failed("connection reset".to_string()),
    ];
    match reduce_results(completions, 0, 2) {
        BenchmarkResult::InvalidResponse(msg) => {
            assert_eq!(msg, "one or more requests failed: connection reset");
        }
        _ => panic!("a failed task must fold into an invalid-response verdict"),
    }
}

#[test]
fn warmup_decision_over_the_scenario_interface() {
    let scenario = PlaintextBenchmark::new();
    let bad = ResponseData {
        status: 503,
        body: ResponseBody::Text(String::new()),
    };
    match run_warmup(&scenario, 1, bad) {
        EngineStep::ReturnEarly(BenchmarkResult::InvalidStatusCode(503)) => {}
        _ => panic!("a failing warm-up must be returned early"),
    }

    let good = ResponseData {
        status: 200,
        body: ResponseBody::Text("Hello, World!".to_string()),
    };
    assert!(matches!(run_warmup(&scenario, 1, good), EngineStep::Proceed));
}

#[test]
fn scenario_request_is_the_fixed_plaintext_url() {
    let scenario = PlaintextBenchmark::new();
    match scenario.make_request(3) {
        RequestSpec::Get { url } => assert_eq!(url, "http://web:8000/benchmark/plain-text"),
        _ => panic!("the plain-text scenario issues plain fetches"),
    }
}
