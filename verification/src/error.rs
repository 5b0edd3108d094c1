//! chiaki error codes and the conversion of a status code into a `Result`.

use vstd::prelude::*;

verus! {

/// The status codes that chiaki's C functions return (`ChiakiErrorCode`).
#[derive(Debug, Clone, Copy, PartialEq, Eq, Structural)]
pub enum ErrorCode {
    Success,
    Unknown,
    ParseAddr,
    Thread,
    Memory,
    Overflow,
    Network,
    ConnectionRefused,
    HostDown,
    HostUnreach,
    Disconnected,
    InvalidData,
    BufTooSmall,
    MutexLocked,
    Canceled,
    Timeout,
    InvalidResponse,
    InvalidMac,
    Uninitialized,
    FecFailed,
    VersionMismatch,
    HttpNonok,
}

/// A chiaki error: a status code other than success.
#[derive(Debug, Clone, Copy, PartialEq, Eq, Structural)]
pub struct Error(pub ErrorCode);

impl Error {
    /// The status code carried by this error.
    pub fn code(self) -> (c: ErrorCode)
        ensures
            c == self.0,
    {
        self.0
    }
}

/// Turns a status code into a `Result`: `Ok` exactly for success,
/// otherwise an error carrying the code.
pub fn cvt(code: ErrorCode) -> (r: Result<(), Error>)
    ensures
        r is Ok <==> code == ErrorCode::Success,
        r matches Err(e) ==> e.0 == code,
{
    match code {
        ErrorCode::Success => Ok(()),
        _ => Err(Error(code)),
    }
}

} // verus!
