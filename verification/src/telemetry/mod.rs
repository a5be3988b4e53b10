//! Telemetry settings.

pub mod config;
