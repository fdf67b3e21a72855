//! Quality profiles and the gates checked against them.

pub mod gates;
pub mod profiles;
