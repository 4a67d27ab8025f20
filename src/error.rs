use vstd::prelude::*;

verus! {

/// End of file.
pub const EOF: i32 = -4095;
/// An error with no more specific code.
pub const UNKNOWN: i32 = -4094;
/// The operation was canceled (by a timeout or a close).
pub const ECANCELED: i32 = -125;
pub const EACCES: i32 = -13;
pub const ECONNREFUSED: i32 = -111;
pub const ECONNRESET: i32 = -104;
pub const ECONNABORTED: i32 = -103;
pub const ENOTCONN: i32 = -107;
pub const EADDRINUSE: i32 = -98;
pub const EADDRNOTAVAIL: i32 = -99;
pub const ENOENT: i32 = -2;
pub const EPIPE: i32 = -32;
pub const EPERM: i32 = -1;
pub const EBADF: i32 = -9;
pub const EINVAL: i32 = -22;
pub const EAGAIN: i32 = -11;
/// The resource is busy (a loop with work still on it).
pub const EBUSY: i32 = -16;

/// The value that the C library uses for end of file.
pub const LIBC_EOF: i32 = -1;

/// The stable name of an error code.
pub open spec fn err_name(code: i32) -> Seq<char> {
    if code == EOF { "EOF"@ }
    else if code == ECANCELED { "ECANCELED"@ }
    else if code == EACCES { "EACCES"@ }
    else if code == ECONNREFUSED { "ECONNREFUSED"@ }
    else if code == ECONNRESET { "ECONNRESET"@ }
    else if code == ECONNABORTED { "ECONNABORTED"@ }
    else if code == ENOTCONN { "ENOTCONN"@ }
    else if code == EADDRINUSE { "EADDRINUSE"@ }
    else if code == EADDRNOTAVAIL { "EADDRNOTAVAIL"@ }
    else if code == ENOENT { "ENOENT"@ }
    else if code == EPIPE { "EPIPE"@ }
    else if code == EPERM { "EPERM"@ }
    else if code == EBADF { "EBADF"@ }
    else if code == EINVAL { "EINVAL"@ }
    else if code == EAGAIN { "EAGAIN"@ }
    else if code == EBUSY { "EBUSY"@ }
    else { "UNKNOWN"@ }
}

/// The textual description of an error code.
pub open spec fn err_desc(code: i32) -> Seq<char> {
    if code == EOF { "end of file"@ }
    else if code == ECANCELED { "operation canceled"@ }
    else if code == EACCES { "permission denied"@ }
    else if code == ECONNREFUSED { "connection refused"@ }
    else if code == ECONNRESET { "connection reset by peer"@ }
    else if code == ECONNABORTED { "software caused connection abort"@ }
    else if code == ENOTCONN { "socket is not connected"@ }
    else if code == EADDRINUSE { "address already in use"@ }
    else if code == EADDRNOTAVAIL { "address not available"@ }
    else if code == ENOENT { "no such file or directory"@ }
    else if code == EPIPE { "broken pipe"@ }
    else if code == EPERM { "operation not permitted"@ }
    else if code == EBADF { "bad file descriptor"@ }
    else if code == EINVAL { "invalid argument"@ }
    else if code == EAGAIN { "resource temporarily unavailable"@ }
    else if code == EBUSY { "resource busy or locked"@ }
    else { "unknown error"@ }
}

/// The operating-system error number that corresponds to a reactor error
/// code: end of file keeps the C library's value, every other code is the
/// negated errno.
pub open spec fn io_errno(code: i32) -> int {
    if code == EOF { LIBC_EOF as int } else { -(code as int) }
}

/// An error reported by the reactor, as its (negative) error code.
#[derive(Clone, Copy, Debug, PartialEq, Eq, Structural)]
pub struct UvError(pub i32);

pub type UvResult<T> = Result<T, UvError>;

impl UvError {
    /// Creates an error for a particular code.
    pub fn new(code: i32) -> (r: UvError)
        ensures
            r.0 == code,
    {
        UvError(code)
    }

    /// The raw code of this error.
    pub fn code(&self) -> (r: i32)
        ensures
            r == self.0,
    {
        self.0
    }

    /// The stable name of this error.
    pub fn name(&self) -> (r: &'static str)
        ensures
            r@ == err_name(self.0),
    {
        let c = self.0;
        if c == EOF { "EOF" }
        else if c == ECANCELED { "ECANCELED" }
        else if c == EACCES { "EACCES" }
        else if c == ECONNREFUSED { "ECONNREFUSED" }
        else if c == ECONNRESET { "ECONNRESET" }
        else if c == ECONNABORTED { "ECONNABORTED" }
        else if c == ENOTCONN { "ENOTCONN" }
        else if c == EADDRINUSE { "EADDRINUSE" }
        else if c == EADDRNOTAVAIL { "EADDRNOTAVAIL" }
        else if c == ENOENT { "ENOENT" }
        else if c == EPIPE { "EPIPE" }
        else if c == EPERM { "EPERM" }
        else if c == EBADF { "EBADF" }
        else if c == EINVAL { "EINVAL" }
        else if c == EAGAIN { "EAGAIN" }
        else if c == EBUSY { "EBUSY" }
        else { "UNKNOWN" }
    }

    /// A textual description of this error.
    pub fn desc(&self) -> (r: &'static str)
        ensures
            r@ == err_desc(self.0),
    {
        let c = self.0;
        if c == EOF { "end of file" }
        else if c == ECANCELED { "operation canceled" }
        else if c == EACCES { "permission denied" }
        else if c == ECONNREFUSED { "connection refused" }
        else if c == ECONNRESET { "connection reset by peer" }
        else if c == ECONNABORTED { "software caused connection abort" }
        else if c == ENOTCONN { "socket is not connected" }
        else if c == EADDRINUSE { "address already in use" }
        else if c == EADDRNOTAVAIL { "address not available" }
        else if c == ENOENT { "no such file or directory" }
        else if c == EPIPE { "broken pipe" }
        else if c == EPERM { "operation not permitted" }
        else if c == EBADF { "bad file descriptor" }
        else if c == EINVAL { "invalid argument" }
        else if c == EAGAIN { "resource temporarily unavailable" }
        else if c == EBUSY { "resource busy or locked" }
        else { "unknown error" }
    }

    /// "name: description", the error's display form.
    pub fn to_string(&self) -> (r: String)
        ensures
            r@ == err_name(self.0) + ": "@ + err_desc(self.0),
    {
        let s = String::from_str(self.name());
        let s = s.concat(": ");
        s.concat(self.desc())
    }

    /// The operating-system error number of this error.
    pub fn to_io_error(&self) -> (r: i64)
        ensures
            r == io_errno(self.0),
    {
        if self.0 == EOF {
            LIBC_EOF as i64
        } else {
            -(self.0 as i64)
        }
    }
}

} // verus!
