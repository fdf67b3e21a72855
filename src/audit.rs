//! Codebase audit: dependency, inventory and language analysis.

pub mod dependencies;
pub mod inventory;
pub mod languages;

use vstd::prelude::*;

verus! {

/// Why an audit analysis could not be produced.
#[derive(Debug)]
pub enum AuditError {
    /// The project could not be read; the message says what failed.
    Io(String),
    /// A manifest or source file could not be understood.
    Parse(String),
}

} // verus!
