//! The terminal outcome of one download attempt and its integer status code.

use vstd::prelude::*;

verus! {

/// Status code reported when the download and the write both succeeded.
pub const SUCCESS_CODE: i32 = 0;

/// Status code reported for a local I/O failure (file write or a failed read
/// from the network after the connection was established).
pub const IO_FAILURE_CODE: i32 = 1;

/// Reserved sentinel reported for a transport-level failure (malformed URL,
/// DNS, connect) where no HTTP status was ever obtained.
pub const TRANSPORT_SENTINEL: i32 = 499;

/// What one download attempt ended in. Produced exactly once per attempt.
#[derive(Clone, Copy, PartialEq, Eq, Structural, Debug)]
pub enum Outcome {
    /// The whole body was fetched and written out.
    Success,
    /// The server answered with the carried non-success HTTP status.
    HttpStatusError(u16),
    /// The connection itself failed before any HTTP status was obtained.
    TransportError,
    /// A local I/O failure after the connection was established.
    IoError,
}

/// The integer status code that each outcome is reported as.
pub open spec fn code_of(o: Outcome) -> int {
    match o {
        Outcome::Success => SUCCESS_CODE as int,
        Outcome::HttpStatusError(c) => c as int,
        Outcome::TransportError => TRANSPORT_SENTINEL as int,
        Outcome::IoError => IO_FAILURE_CODE as int,
    }
}

/// Map an outcome to the status code handed back to the caller.
pub fn outcome_code(o: &Outcome) -> (code: i32)
    ensures
        code as int == code_of(*o),
{
    match o {
        Outcome::Success => SUCCESS_CODE,
        Outcome::HttpStatusError(c) => *c as i32,
        Outcome::TransportError => TRANSPORT_SENTINEL,
        Outcome::IoError => IO_FAILURE_CODE,
    }
}

} // verus!
