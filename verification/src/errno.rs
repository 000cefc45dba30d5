//! Errors of the host, by their number.

use vstd::prelude::*;

verus! {

/// Operation not supported.
pub const ENOTSUP: i32 = 95;

/// Invalid argument.
pub const EINVAL: i32 = 22;

/// Input or output failed.
pub const EIO: i32 = 5;

/// No such device.
pub const ENODEV: i32 = 19;

/// Bad descriptor.
pub const EBADF: i32 = 9;

/// Result out of range.
pub const ERANGE: i32 = 34;

/// An error of the host: the number that the failed call left behind.
#[derive(Clone, Copy, Debug, PartialEq, Eq, Structural)]
pub struct Error {
    errno: i32,
}

impl Error {
    /// The number of the error.
    pub closed spec fn spec_errno(&self) -> i32 {
        self.errno
    }

    /// The error with the number `errno`.
    pub closed spec fn new_spec(errno: i32) -> Error {
        Error { errno }
    }

    /// The error with the number `errno`.
    pub fn new(errno: i32) -> (e: Error)
        ensures
            e.spec_errno() == errno,
            e == Error::new_spec(errno),
    {
        Error { errno }
    }

    /// The number of the error.
    pub fn errno(&self) -> (n: i32)
        ensures
            n == self.spec_errno(),
    {
        self.errno
    }
}

} // verus!
