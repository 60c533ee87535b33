//! Failures that the streaming operations report.

use vstd::prelude::*;

verus! {

/// Why an operation failed.
#[derive(Debug, Clone, Copy, PartialEq, Eq, Structural)]
pub enum Error {
    /// The radio driver reported a failure. `status` is the driver's own status
    /// code, passed on as the driver gave it.
    Boundary { status: u32 },
    /// A start command reached a streamer that was already streaming.
    AlreadyStreaming,
    /// A bounded start command asked for no samples at all.
    EmptyStream,
}

/// The status code with which the radio driver reports success.
pub const STATUS_OK: u32 = 0;

/// Turns a status code of the radio driver into a result: success for
/// [`STATUS_OK`], and for any other code the failure that carries it.
pub fn check_status(status: u32) -> (result: Result<(), Error>)
    ensures
        status == STATUS_OK ==> result is Ok,
        status != STATUS_OK ==> (result == Err::<(), Error>(Error::Boundary { status })),
{
    if status == STATUS_OK {
        Ok(())
    } else {
        Err(Error::Boundary { status })
    }
}

} // verus!
