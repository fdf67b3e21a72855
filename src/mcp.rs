//! Tool request and response types for the protocol front end, and the
//! server value.

pub mod audit;
pub mod run_all;
pub mod server;
