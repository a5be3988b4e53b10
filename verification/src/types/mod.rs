//! Typed values that cross the gateway's boundaries.

pub mod io;
pub mod reasoning_profile;
pub mod reasoning_replay;
pub mod request_response;
pub mod upstream_identity;
