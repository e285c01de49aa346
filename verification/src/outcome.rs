//! Classification of a write request's result.
//!
//! The store answers a create with 201 and a delete with 200. Any other
//! status is a rejection, and the response body is carried along verbatim so
//! the caller can show it to the user.

use vstd::prelude::*;

verus! {

/// The status the store answers a successful create with.
pub const CREATE_SUCCESS_STATUS: u16 = 201;

/// The status the store answers a successful delete with.
pub const DELETE_SUCCESS_STATUS: u16 = 200;

/// The result of a write request that reached the store.
#[derive(Debug)]
pub enum WriteOutcome {
    /// The store answered with the expected status.
    Success,
    /// The store answered with any other status; the response body is kept
    /// verbatim for display.
    Rejected { status: u16, body: String },
}

/// Classify a write request's answer: success exactly on the expected
/// status, and a rejection carrying the status and the literal body text on
/// any other.
pub fn classify_write(expected: u16, status: u16, body: String) -> (r: WriteOutcome)
    ensures
        status == expected ==> r is Success,
        status != expected ==> r == (WriteOutcome::Rejected { status, body }),
{
    if status == expected {
        WriteOutcome::Success
    } else {
        WriteOutcome::Rejected { status, body }
    }
}

} // verus!
