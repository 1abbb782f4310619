//! The error taxonomy of the boundary layer and the call-status channel.
//!
//! Every boundary entry point reports its outcome through a
//! [`CallStatus`] cell in addition to its return value, because a return
//! channel that can only signal "got a result" or "nothing" cannot carry
//! a reason. The cell is overwritten on every call, never merged.

use vstd::prelude::*;

verus! {

/// The outcome of the most recent boundary call.
///
/// `BLAZE_ERR_OK` is the success sentinel; all other codes classify a
/// failure. Engine-reported kinds are surfaced verbatim onto this code
/// space.
#[derive(Clone, Copy, Debug, PartialEq, Eq, Structural)]
pub enum blaze_err {
    /// The call succeeded.
    BLAZE_ERR_OK,
    /// An entity was not found, often a file.
    BLAZE_ERR_NOT_FOUND,
    /// The operation lacked the necessary privileges to complete.
    BLAZE_ERR_PERMISSION_DENIED,
    /// An entity already exists, often a file.
    BLAZE_ERR_ALREADY_EXISTS,
    /// The operation needs to block to complete, but the blocking
    /// operation was requested to not occur.
    BLAZE_ERR_WOULD_BLOCK,
    /// A parameter was incorrect.
    BLAZE_ERR_INVALID_INPUT,
    /// Data not valid for the operation were encountered.
    BLAZE_ERR_INVALID_DATA,
    /// DWARF input data was invalid.
    BLAZE_ERR_INVALID_DWARF,
    /// The operation's timeout expired, causing it to be canceled.
    BLAZE_ERR_TIMED_OUT,
    /// A write returned nothing although more input was pending.
    BLAZE_ERR_WRITE_ZERO,
    /// This operation is unsupported on this platform.
    BLAZE_ERR_UNSUPPORTED,
    /// An "end of file" was reached prematurely.
    BLAZE_ERR_UNEXPECTED_EOF,
    /// An operation failed to allocate enough memory.
    BLAZE_ERR_OUT_OF_MEMORY,
    /// An error that does not fall under any other kind.
    BLAZE_ERR_OTHER,
}

/// The call-status channel: a scoped cell recording the outcome of the
/// most recent boundary call.
///
/// The cell holds only a scalar code and owns no resources; no teardown
/// is needed for it. Callers that serve multiple threads keep one cell
/// per thread so that concurrent calls do not observe each other's
/// codes.
pub struct CallStatus {
    /// The code recorded by the most recent call.
    pub code: blaze_err,
}

impl CallStatus {
    /// A fresh channel; before any call it reads as success.
    pub fn new() -> (r: Self)
        ensures
            r.code == blaze_err::BLAZE_ERR_OK,
    {
        CallStatus { code: blaze_err::BLAZE_ERR_OK }
    }

    /// Record the outcome of a call, overwriting the previous one.
    pub fn set(&mut self, code: blaze_err)
        ensures
            final(self).code == code,
    {
        self.code = code;
    }

    /// Read the recorded outcome of the most recent call.
    pub fn last(&self) -> (r: blaze_err)
        ensures
            r == self.code,
    {
        self.code
    }
}

} // verus!
