//! What can go wrong at the boundary, and the codes the host is told.

use vstd::prelude::*;

verus! {

/// The code that completes an operation which found no archive service.
pub const SERVICE_UNAVAILABLE: u32 = 13;

/// The code that completes a download which the archive service gave up.
pub const DOWNLOAD_FAILED: u32 = 14;

/// The code that completes an operation which went through.
pub const SUCCESS: u32 = 0;

/// A call that broke the boundary's rules: a fault of the caller, not an
/// outcome of the operation. The bridge reports it to its caller, leaves
/// every table and the error channel as they were, and decides nothing on
/// the operation; what becomes of the process is the caller's matter.
#[derive(Clone, Copy, Debug, PartialEq, Eq, Structural)]
pub enum BridgeError {
    /// The handle is null, was released, or was never given out.
    InvalidHandle,
    /// A string argument is the null pointer.
    NullString,
    /// A string argument is not UTF-8.
    InvalidEncoding,
    /// A text to hand out holds the terminator in its middle.
    InteriorNul,
}

/// A failure of the archive service, as the bridge sees it: the code that
/// the service maps the failure to, and the text that describes it.
#[derive(Debug)]
pub struct Failure {
    pub code: u32,
    pub description: String,
}

/// The text that an outcome leaves for the error channel: the failure's
/// description, and nothing where the service succeeded.
pub open spec fn report_of<T>(outcome: Result<T, Failure>) -> Option<Seq<char>> {
    match outcome {
        Ok(_) => None,
        Err(failure) => Some(failure.description@),
    }
}

/// The code that an outcome of the archive service is reported with.
pub open spec fn code_of<T>(outcome: Result<T, Failure>) -> u32 {
    match outcome {
        Ok(_) => SUCCESS,
        Err(failure) => failure.code,
    }
}

/// The code tells the host whether the operation went through, as long as
/// the archive service reports none of its failures as zero.
pub proof fn lemma_code_tells_outcome<T>(outcome: Result<T, Failure>)
    requires
        outcome matches Err(failure) ==> failure.code != 0,
    ensures
        code_of(outcome) == SUCCESS <==> outcome is Ok,
        SERVICE_UNAVAILABLE != SUCCESS,
        DOWNLOAD_FAILED != SUCCESS,
{
}

} // verus!
