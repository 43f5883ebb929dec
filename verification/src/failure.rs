//! The ways a request can fail, and the one status that reports them all.

use vstd::prelude::*;

verus! {

/// The status of every response to a failed request.
pub const INTERNAL_SERVER_ERROR: u16 = 500;

/// Where a request failed. The caller sees the same status for each; the kind
/// is kept for whoever logs it.
#[derive(Clone, Copy, Debug, PartialEq, Eq, Structural)]
pub enum FailureKind {
    /// The sample source could not produce audio.
    Synthesis,
    /// An encoder session could not be set up, fed or flushed.
    Encoding,
    /// The clock or the file sink failed.
    Io,
}

impl FailureKind {
    /// The status sent to the caller, whatever the kind.
    pub fn status_code(&self) -> (r: u16)
        ensures
            r == INTERNAL_SERVER_ERROR,
    {
        INTERNAL_SERVER_ERROR
    }
}

} // verus!
