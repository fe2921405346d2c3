//! The kinds of failure that the task tracker reports.
use vstd::prelude::*;

verus! {

/// Why an operation failed.
#[derive(Debug, Clone, PartialEq, Eq)]
pub enum TaskError {
    /// The home directory of the current user could not be determined.
    Environment,
    /// A directory or file could not be created or accessed; holds the reason.
    Io(String),
    /// The database refused to open, or a statement failed; holds the reason.
    Storage(String),
}

} // verus!
