//! The decisions of a stateful gateway in front of a Responses inference server.
//!
//! - [`settings`] resolves arguments, environment and configuration file into what the
//!   gateway runs with, and plans its start.
//! - [`telemetry`] does the same for the standard `OTEL_*` variables.
//! - [`types`] holds requests, responses and the server-owned provenance of reasoning.
//! - [`executor`] fingerprints upstream routing, stamps provenance, holds requests to a
//!   pinned profile, bounds what a response may retain, and audits injected faults.
//! - [`json`], [`text`] and [`parts`] are the plain values that the rest is stated over.
//!
//! Each operation has a mathematical model, most often a function on `Seq<char>`, and
//! its contract says that the two agree on every input. Where the outcome rests on
//! others who share a lock, or on the machine, the contract says which step the result
//! comes from. Public functions named `law_*` state and prove what holds across
//! operations.

pub mod error;
pub mod executor;
pub mod json;
pub mod parts;
pub mod settings;
pub mod telemetry;
pub mod text;
pub mod types;
