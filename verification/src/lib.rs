//! Event capture and transport for process-execution tracing.
//!
//! A producer that runs once per tracked syscall entry stages the executed
//! path into a bounded shared buffer through a reserve / commit-or-discard
//! protocol; a consumer polls the buffer, decodes each delivered event as
//! text and renders it one line at a time.

pub mod channel;
pub mod consumer;
pub mod producer;

use vstd::prelude::*;

verus! {

/// Fallback for a panic inside the restricted hook context. That context
/// cannot unwind or report an error upward, so the fallback absorbs the
/// panic and the invocation simply ends; the verified producer path never
/// panics, so it is never reached from this crate.
pub fn default_panic() {
}

} // verus!
