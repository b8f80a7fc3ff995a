//! A Fibonacci AIR for STARK proving.
//!
//! The library holds what a proof that a Fibonacci-style recurrence was
//! computed correctly rests on, apart from the prover itself:
//!
//! - [`field`]: the native fields, Baby Bear and Mersenne-31, with elements
//!   held as canonical `u32` representatives and added by `p3_baby_bear` and
//!   `p3_mersenne_31`;
//! - [`trace`]: the trace generator, which fills a `p3_matrix` row-major
//!   matrix with the terms of the recurrence;
//! - [`air`]: the AIR, whose `eval` registers the first-row, transition and
//!   last-row constraints with a builder;
//! - [`satisfaction`]: what it means for a trace to satisfy constraints, and
//!   the check that decides it;
//! - [`characterization`]: the proof that the constraints admit the
//!   generated trace and no other;
//! - [`config`]: the configurations shared by proving and verification, with
//!   the two profiles;
//! - [`driver`]: the decisions of a proof run, from the trace to the
//!   verifier's verdict;
//! - [`fib_bb`] and [`fib_m31`]: the reference run under each profile.
//!
//! Proving and verifying themselves are done by `p3_uni_stark`, by whoever
//! runs the driver.

pub mod air;
pub mod characterization;
pub mod config;
pub mod driver;
pub mod error;
pub mod fib_bb;
pub mod fib_m31;
pub mod field;
pub mod matrix;
pub mod satisfaction;
pub mod trace;

pub use air::FibonacciAir;
pub use fib_bb::run_fibonacci_proof_bb;
pub use fib_m31::run_fibonacci_proof_m31;
pub use trace::generate_fibonacci_trace;
