//! Issue-tracker integrations: the tracker types and the Linear provider's
//! request building and response interpretation.

pub mod linear;
pub mod tracker;
