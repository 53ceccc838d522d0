use vstd::prelude::*;

verus! {

/// An errno number other than the ones `Error` names, between 1 and
/// `MAX_ERRNO`.
#[derive(Debug, Clone, Copy, PartialEq, Eq, Structural)]
pub struct Errno {
    value: u16,
}

impl Errno {
    /// The errno number.
    pub closed spec fn number(self) -> int {
        self.value as int
    }
}

/// A kernel error: a Linux errno number between 1 and `MAX_ERRNO` (4095).
/// The errors drivers use most are named; any other errno is `Other`.
///
/// C code sees the number negated, as the kernel's return convention has it.
#[derive(Debug, Clone, Copy, PartialEq, Eq, Structural)]
pub enum Error {
    /// I/O error (`EIO`, 5).
    EIO,
    /// Out of memory (`ENOMEM`, 12).
    ENOMEM,
    /// Permission denied (`EACCES`, 13).
    EACCES,
    /// Device or resource busy (`EBUSY`, 16).
    EBUSY,
    /// No such device (`ENODEV`, 19).
    ENODEV,
    /// Invalid argument (`EINVAL`, 22).
    EINVAL,
    /// Function not implemented (`ENOSYS`, 38).
    ENOSYS,
    /// Connection timed out (`ETIMEDOUT`, 110).
    ETIMEDOUT,
    /// Operation not supported (`ENOTSUPP`, 524).
    ENOTSUPP,
    /// Any other errno.
    Other(Errno),
}

/// Whether `n` is the errno of one of the named errors.
pub open spec fn named_errno(n: int) -> bool {
    n == 5 || n == 12 || n == 13 || n == 16 || n == 19 || n == 22 || n == 38 || n == 110 || n
        == 524
}

/// The positive errno number an error carries.
pub open spec fn errno_of(e: Error) -> int {
    match e {
        Error::EIO => 5,
        Error::ENOMEM => 12,
        Error::EACCES => 13,
        Error::EBUSY => 16,
        Error::ENODEV => 19,
        Error::EINVAL => 22,
        Error::ENOSYS => 38,
        Error::ETIMEDOUT => 110,
        Error::ENOTSUPP => 524,
        Error::Other(o) => o.number(),
    }
}

/// A well-formed error: an `Other` carries an errno in `1..=MAX_ERRNO` that
/// has no name of its own, so each errno has exactly one error.
pub open spec fn error_wf(e: Error) -> bool {
    match e {
        Error::Other(o) => 1 <= o.number() <= 4095 && !named_errno(o.number()),
        _ => true,
    }
}

impl Error {
    /// The error for a negative C return code `errno`; a value outside
    /// `-MAX_ERRNO..=-1` is no valid error code and gives `EINVAL`.
    pub fn from_errno(errno: i32) -> (e: Error)
        ensures
            error_wf(e),
            -4095 <= errno <= -1 ==> errno_of(e) == -errno,
            !(-4095 <= errno <= -1) ==> e == Error::EINVAL,
    {
        if errno < -4095 || errno >= 0 {
            return Error::EINVAL;
        }
        let n: i32 = -errno;
        match n {
            5 => Error::EIO,
            12 => Error::ENOMEM,
            13 => Error::EACCES,
            16 => Error::EBUSY,
            19 => Error::ENODEV,
            22 => Error::EINVAL,
            38 => Error::ENOSYS,
            110 => Error::ETIMEDOUT,
            524 => Error::ENOTSUPP,
            _ => Error::Other(Errno { value: n as u16 }),
        }
    }

    /// The value handed back to C code: the errno number, negated.
    pub fn to_errno(self) -> (r: i32)
        ensures
            r == -errno_of(self),
    {
        match self {
            Error::EIO => -5,
            Error::ENOMEM => -12,
            Error::EACCES => -13,
            Error::EBUSY => -16,
            Error::ENODEV => -19,
            Error::EINVAL => -22,
            Error::ENOSYS => -38,
            Error::ETIMEDOUT => -110,
            Error::ENOTSUPP => -524,
            Error::Other(o) => -(o.value as i32),
        }
    }
}

/// Among well-formed errors, the errno number determines the error, and every
/// errno number is positive.
pub proof fn lemma_errno_identifies_error(a: Error, b: Error)
    requires
        error_wf(a),
        error_wf(b),
    ensures
        errno_of(a) == errno_of(b) ==> a == b,
        errno_of(a) > 0,
{
    if errno_of(a) == errno_of(b) {
        if let Error::Other(oa) = a {
            if let Error::Other(ob) = b {
                assert(oa.value == ob.value);
            }
        }
    }
}

} // verus!
