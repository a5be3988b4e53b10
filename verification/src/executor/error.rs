//! Failures of the inference engine.

use vstd::prelude::*;

verus! {

/// Which bounded resource ran out.
#[derive(Debug, Clone, Copy, PartialEq, Eq, Structural)]
pub enum ResourceLimit {
    ResponseBudget,
}

/// Why the engine stopped.
#[derive(Debug, Clone, Copy, PartialEq, Eq)]
pub enum ExecutorError {
    ResourceLimitExceeded { limit: ResourceLimit, max_bytes: usize },
    /// The transport to the inference server failed; the text never quotes a peer.
    LLMTransport { status: u16, message: &'static str },
}

} // verus!
