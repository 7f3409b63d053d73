//! Verified core of a queue-driven executor for Rust submissions.
//!
//! One job carries untrusted source text and a JSON input. The worker
//! wraps the text into a small program, compiles it in an ephemeral
//! workspace, runs it once with the input on its standard input, and
//! publishes a classified result envelope. The filesystem, the child
//! processes and the queue live outside this crate; every decision —
//! what the generated sources say, how each observation is classified,
//! what the envelope holds — is made here, under contract.

pub mod codegen;
pub mod engine;
pub mod json;
pub mod text;
pub mod worker;

use vstd::prelude::*;

verus! {

/// Seconds allowed for compiling one submission before it is cancelled.
pub const COMPILE_TIMEOUT_SECS: u64 = 60;

/// Seconds allowed for running one compiled submission before it is killed.
pub const EXECUTION_TIMEOUT_SECS: u64 = 30;

/// Seconds a published result stays readable in the result store.
pub const RESULT_TTL_SECONDS: u64 = 600;

} // verus!
