//! Drives head-to-head benchmarks of alternative web-service implementations.
//!
//! The verified core is made of two pieces: a concurrent execution engine
//! (warm-up check, fan-out of N requests, fan-in, reduction of the per-task
//! outcomes into one verdict) and a process lifecycle manager (a registry of
//! spawned subprocesses with register / kill / kill-all bookkeeping). Around
//! them stand the per-scenario validators, the readiness-probe schedule and
//! the container-listing selection logic, all on plain values. The actual
//! network, subprocess and signal plumbing lives outside the library and
//! hands it plain data.

pub mod benchmarks;
pub mod decimal;
pub mod docker;
pub mod http;
pub mod process_manager;
pub mod results;
pub mod runner;
