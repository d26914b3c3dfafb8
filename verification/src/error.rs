//! The errors that end a session.
//!
//! A failure of the codec on one message is not among them: the relay
//! reports it and goes on.

use vstd::prelude::*;

verus! {

/// Why the relay gave up.
#[derive(Clone, Copy, Debug, PartialEq, Eq, Structural)]
pub enum Error {
    /// The remote endpoint could not be resolved to an address.
    AddressResolution,
    /// The connection to the remote endpoint could not be made.
    ConnectionFailure,
    /// Reading from the transport failed.
    ReadFailure,
    /// Writing to the transport failed.
    WriteFailure,
}

/// The exit code of a process that ended without an error.
pub const EXIT_SUCCESS: i32 = 0;

/// The exit code of a process that ended on an error.
pub const EXIT_FAILURE: i32 = 1;

/// The exit code for the way a session ended.
pub open spec fn exit_code_spec(outcome: Result<(), Error>) -> i32 {
    match outcome {
        Ok(_) => EXIT_SUCCESS,
        Err(_) => EXIT_FAILURE,
    }
}

/// The exit code for the way a session ended: zero for a clean end, one
/// for any error.
pub fn exit_code(outcome: Result<(), Error>) -> (code: i32)
    ensures
        code == exit_code_spec(outcome),
{
    match outcome {
        Ok(_) => EXIT_SUCCESS,
        Err(_) => EXIT_FAILURE,
    }
}

impl Error {
    /// A line that says what went wrong.
    pub fn describe(self) -> (text: &'static str)
        ensures
            text@ == match self {
                Error::AddressResolution => "invalid address"@,
                Error::ConnectionFailure => "failed to connect to the remote endpoint"@,
                Error::ReadFailure => "failed to read from socket"@,
                Error::WriteFailure => "failed to write to socket"@,
            },
    {
        match self {
            Error::AddressResolution => "invalid address",
            Error::ConnectionFailure => "failed to connect to the remote endpoint",
            Error::ReadFailure => "failed to read from socket",
            Error::WriteFailure => "failed to write to socket",
        }
    }
}

} // verus!
