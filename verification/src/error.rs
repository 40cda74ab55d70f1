//! The unified error model: engine status codes and OS error numbers merged
//! into one error value carrying an eagerly resolved display message.

use vstd::prelude::*;

verus! {

/// OS error number for an invalid argument (POSIX `EINVAL`, Linux value).
pub const EINVAL: i32 = 22;

/// OS error number for an allocation failure (POSIX `ENOMEM`, Linux value).
pub const ENOMEM: i32 = 12;

/// The decoding engine's status code for success.
pub const ENGINE_SUCCESS: i32 = 0;

/// The decoding engine's sentinel status for a generic input/output failure,
/// the one status whose true cause may sit in the OS error number instead.
pub const ENGINE_IO_ERROR: i32 = -100009;

/// Which failure source produced an error: the decoding engine's own status
/// code, or an OS error number.
#[derive(Debug, Clone, Copy, PartialEq, Eq, Structural)]
pub enum Repr {
    /// The engine reported this non-success status code.
    Engine(i32),
    /// The OS attributed the failure to this error number.
    Os(i32),
}

/// The error type for decoding operations.  The display message is resolved
/// once, when the error is constructed, and never re-resolved later.
#[derive(Debug, Clone)]
pub struct Error {
    pub repr: Repr,
    pub message: String,
}

impl Error {
    /// The human-readable description resolved when the error was made.
    /// The display contract is this text alone: no code prefix, no tag.
    pub fn description(&self) -> (r: &str)
        ensures
            r@ == self.message@,
    {
        self.message.as_str()
    }

    /// Builds an engine-attributed error from a status code and the engine's
    /// own description of it, already resolved.
    pub fn engine(code: i32, message: String) -> (r: Error)
        ensures
            r.repr == Repr::Engine(code),
            r.message == message,
    {
        Error { repr: Repr::Engine(code), message }
    }
}

#[verifier::external_type_specification]
#[verifier::external_body]
pub struct ExIoError(std::io::Error);

/// Relies on `std::io::Error::from_raw_os_error`: wraps an OS error number as
/// an OS error value; no promise is made about the value's contents.
#[verifier::external_body]
fn os_error_from_errno(errno: i32) -> (r: std::io::Error) {
    std::io::Error::from_raw_os_error(errno)
}

/// Relies on the `Display` rendering of `std::io::Error`: the OS's textual
/// description of the error.  The text may depend on the platform and locale,
/// so nothing is promised of it.
#[verifier::external_body]
fn os_error_text(e: &std::io::Error) -> (r: String) {
    e.to_string()
}

/// The OS's textual description of an error number.  The text is whatever the
/// platform resolves at the moment of the call.
pub fn error_string(errno: i32) -> (r: String) {
    let e = os_error_from_errno(errno);
    os_error_text(&e)
}

/// Makes an OS-attributed error from an OS error number, resolving the OS's
/// description eagerly at construction.
pub fn from_raw_os_error(errno: i32) -> (r: Error)
    ensures
        r.repr == Repr::Os(errno),
{
    let e = os_error_from_errno(errno);
    let message = os_error_text(&e);
    Error { repr: Repr::Os(errno), message }
}

/// How a completed open attempt is attributed, once the engine's status and
/// the OS error number read directly after the call are both in hand.
#[derive(Debug, Clone, Copy, PartialEq, Eq, Structural)]
pub enum OpenStatus {
    /// The engine reported success.
    Success,
    /// The failure is the engine's own: carries its status code.
    Engine(i32),
    /// The OS can attribute the failure more specifically: carries the OS
    /// error number.
    Os(i32),
}

/// The decision step of the clear/check protocol around the engine's open
/// call: the global OS error number is cleared before the call and read right
/// after it; this function then attributes the outcome.  A non-success status
/// other than the engine's I/O sentinel is the engine's own failure; the I/O
/// sentinel is attributed to the OS exactly when the error number is set, and
/// kept as an engine failure when it reads zero despite the sentinel.
pub fn attribute_open_status(status: i32, errno_after: i32) -> (r: OpenStatus)
    ensures
        (status == ENGINE_SUCCESS) <==> (r == OpenStatus::Success),
        status == ENGINE_IO_ERROR && errno_after != 0 ==> r == OpenStatus::Os(errno_after),
        status == ENGINE_IO_ERROR && errno_after == 0 ==> r == OpenStatus::Engine(
            ENGINE_IO_ERROR,
        ),
        status != ENGINE_SUCCESS && status != ENGINE_IO_ERROR ==> r == OpenStatus::Engine(status),
{
    if status == ENGINE_SUCCESS {
        OpenStatus::Success
    } else if status == ENGINE_IO_ERROR {
        if errno_after != 0 {
            OpenStatus::Os(errno_after)
        } else {
            OpenStatus::Engine(ENGINE_IO_ERROR)
        }
    } else {
        OpenStatus::Engine(status)
    }
}

/// True when some byte of the sequence is a NUL terminator.
pub open spec fn has_nul_byte(s: Seq<u8>) -> bool {
    exists|i: int| 0 <= i < s.len() && s[i] == 0
}

/// Checks that a path's native bytes can form a C string for the engine:
/// rejects any embedded NUL byte with an invalid-argument OS error, before
/// the engine is ever contacted.
pub fn validate_path_bytes(bytes: &[u8]) -> (r: Result<(), Error>)
    ensures
        (r is Ok) <==> !has_nul_byte(bytes@),
        r matches Err(e) ==> e.repr == Repr::Os(EINVAL),
{
    let mut i: usize = 0;
    while i < bytes.len()
        invariant
            i <= bytes@.len(),
            forall|j: int| 0 <= j < i ==> bytes@[j] != 0,
        decreases bytes@.len() - i,
    {
        if bytes[i] == 0 {
            return Err(from_raw_os_error(EINVAL));
        }
        i = i + 1;
    }
    Ok(())
}

} // verus!
