//! Errors of the context layer, and the mapping of native failure signals onto them.

use vstd::prelude::*;

verus! {

/// What went wrong in a call on a context.
#[derive(Debug, Clone, Copy, PartialEq, Eq, Structural)]
pub enum Error {
    /// A caller's string cannot be handed to the native layer: it holds a NUL byte.
    Argument,
    /// A native call failed; carries the native error code (`errno`) read right after it.
    System(i32),
    /// A value lies outside what the native layer can take: no device stands at the
    /// requested index, or a timeout is too long for its millisecond count.
    Range,
}

impl Error {
    /// A short description of the error.
    pub fn message(&self) -> (r: &'static str)
        ensures
            r@ == match self {
                Error::Argument => "string holds a NUL byte"@,
                Error::System(_) => "native call failed"@,
                Error::Range => "index out of range"@,
            },
    {
        match self {
            Error::Argument => "string holds a NUL byte",
            Error::System(_) => "native call failed",
            Error::Range => "index out of range",
        }
    }
}

/// Relies on `nix::errno::Errno::last`: reads the calling thread's `errno`, which the
/// native library sets when a call fails, as an `Errno` (a code that nix does not
/// know becomes `UnknownErrno`, 0). The value depends on the thread's history, so
/// nothing is promised of it.
#[verifier::external_body]
pub(crate) fn last_errno() -> (r: i32)
{
    nix::errno::Errno::last() as i32
}

/// Maps a native status code onto a result: a negative status is a failure, reported
/// with the native error code read right after the call.
pub fn check_status(ret: i32) -> (r: Result<(), Error>)
    ensures
        ret >= 0 <==> r is Ok,
        ret < 0 ==> r matches Err(Error::System(_)),
{
    if ret < 0 {
        Err(Error::System(last_errno()))
    } else {
        Ok(())
    }
}

} // verus!
