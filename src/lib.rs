//! A harness that runs a workload on the host and inside a proving engine,
//! cross-checks the two results, verifies the proof, checks that a tampered
//! proof is refused, and measures each phase.
pub mod batch;
pub mod benchmark;
pub mod decimal;
pub mod laws;
mod clock;
pub mod metrics;

pub use batch::{run_jobs, BatchFailure, BatchHalt};
pub use benchmark::{falsify, run, Benchmark, Halt, Violation};
pub use metrics::Metrics;
