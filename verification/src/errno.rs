//! The Linux error numbers this layer reports, read from `axerrno`.
use vstd::prelude::*;
use axerrno::LinuxError;

verus! {

/// The Linux error numbers that the ext4 layer produces.
#[derive(Clone, Copy, Debug, PartialEq, Eq, Structural)]
pub enum Errno {
    ENOENT,
    EIO,
    EACCES,
    EBUSY,
    EEXIST,
    EINVAL,
    ENOSPC,
    ENOTEMPTY,
    EBADFD,
    EOPNOTSUPP,
    EUCLEAN,
}

impl Errno {
    /// The number that `errno.h` gives the error.
    pub open spec fn number(self) -> i32 {
        match self {
            Errno::ENOENT => 2,
            Errno::EIO => 5,
            Errno::EACCES => 13,
            Errno::EBUSY => 16,
            Errno::EEXIST => 17,
            Errno::EINVAL => 22,
            Errno::ENOSPC => 28,
            Errno::ENOTEMPTY => 39,
            Errno::EBADFD => 77,
            Errno::EOPNOTSUPP => 95,
            Errno::EUCLEAN => 117,
        }
    }

    /// The error's number, as `axerrno::LinuxError` defines it.
    pub fn code(self) -> (r: i32)
        ensures
            r == self.number(),
    {
        linux_error_code(self)
    }
}

/// Calls `axerrno::LinuxError::code` on the variant of the same name; the
/// contract repeats the numbers of `errno.h`, from which `axerrno` generates
/// the enum's discriminants.
#[verifier::external_body]
fn linux_error_code(e: Errno) -> (r: i32)
    ensures
        r == e.number(),
{
    let l = match e {
        Errno::ENOENT => LinuxError::ENOENT, Errno::EIO => LinuxError::EIO,
        Errno::EACCES => LinuxError::EACCES, Errno::EBUSY => LinuxError::EBUSY,
        Errno::EEXIST => LinuxError::EEXIST, Errno::EINVAL => LinuxError::EINVAL,
        Errno::ENOSPC => LinuxError::ENOSPC, Errno::ENOTEMPTY => LinuxError::ENOTEMPTY,
        Errno::EBADFD => LinuxError::EBADFD, Errno::EOPNOTSUPP => LinuxError::EOPNOTSUPP,
        Errno::EUCLEAN => LinuxError::EUCLEAN,
    };
    l.code()
}

} // verus!
