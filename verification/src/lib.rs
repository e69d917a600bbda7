//! Benchmark harness that compares the cost of duplicating a string under two
//! ownership strategies: an exclusively owned string that deep-copies on every
//! clone, and a shared reference-counted immutable string whose clone only
//! bumps a reference count.
//!
//! The verified core covers the clone workload (the unit of concurrent work),
//! the per-experiment setup (random source string, representation wrapping,
//! per-task handles), and the sweep controller that walks the fixed grid of
//! configurations and averages trial timings into report rows.

pub mod bench;
pub mod cli;
pub mod sweep;
