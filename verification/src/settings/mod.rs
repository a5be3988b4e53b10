//! How the gateway's settings follow from arguments, environment and file.

pub mod database;
pub mod environment;
pub mod gateway;
pub mod launch;
pub mod web_search;
