//! What can go wrong.

use vstd::prelude::*;

verus! {

/// A platform call failed. The code is the platform's own, passed on as it
/// was reported.
#[derive(Debug, Clone, Copy, PartialEq, Eq, Structural)]
pub struct OsError {
    pub code: i32,
}

/// Why a search for a process ended without one.
#[derive(Debug, Clone, Copy, PartialEq, Eq, Structural)]
pub enum SearchError {
    /// A platform call that the search cannot go on without has failed.
    Os(OsError),
    /// The enumeration was walked to its end and no process matched.
    NotFound,
}

/// Why a typed transfer to or from foreign memory did not deliver its value.
#[derive(Debug, Clone, Copy, PartialEq, Eq, Structural)]
pub enum MemoryError {
    /// The platform refused the transfer.
    Os(OsError),
    /// The platform moved fewer or more bytes than the value has.
    ShortTransfer { requested: usize, transferred: usize },
}

} // verus!
