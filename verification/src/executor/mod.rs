//! Decisions of the inference engine that need no network.

pub mod error;
pub mod parameters;
pub mod qualification;
pub mod replay;
pub mod response_budget;
pub mod transport;
