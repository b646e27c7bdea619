//! Error kinds of the kernel library and the Linux error numbers that the
//! system calls report.
use vstd::prelude::*;

verus! {

/// The failures that the loader and the file layer report.  The application
/// maps each onto the `AxError` of the same name.
#[derive(Clone, Copy, Debug, PartialEq, Eq, Structural)]
pub enum KernelError {
    NotFound,
    InvalidExecutable,
    OutOfRange,
    Unsupported,
}

/// The Linux error numbers that the system calls of this kernel return
/// (negated) to user space.
#[allow(non_camel_case_types)]
#[derive(Clone, Copy, Debug, PartialEq, Eq, Structural)]
pub enum Errno {
    ENOENT,
    ESRCH,
    EIO,
    EBADF,
    ENOMEM,
    EFAULT,
    EINVAL,
    EMFILE,
    ENOSYS,
}

/// The number that `errno.h` gives each error.
pub open spec fn errno_number(e: Errno) -> i32 {
    match e {
        Errno::ENOENT => 2,
        Errno::ESRCH => 3,
        Errno::EIO => 5,
        Errno::EBADF => 9,
        Errno::ENOMEM => 12,
        Errno::EFAULT => 14,
        Errno::EINVAL => 22,
        Errno::EMFILE => 24,
        Errno::ENOSYS => 38,
    }
}

/// `axerrno::LinuxError::code`: the error's discriminant, which the crate
/// generates from `errno.h`; the contract states those numbers.
#[verifier::external_body]
fn linux_error_code(e: Errno) -> (code: i32)
    ensures
        code == errno_number(e),
{
    let le = match e {
        Errno::ENOENT => axerrno::LinuxError::ENOENT,
        Errno::ESRCH => axerrno::LinuxError::ESRCH,
        Errno::EIO => axerrno::LinuxError::EIO,
        Errno::EBADF => axerrno::LinuxError::EBADF,
        Errno::ENOMEM => axerrno::LinuxError::ENOMEM,
        Errno::EFAULT => axerrno::LinuxError::EFAULT,
        Errno::EINVAL => axerrno::LinuxError::EINVAL,
        Errno::EMFILE => axerrno::LinuxError::EMFILE,
        Errno::ENOSYS => axerrno::LinuxError::ENOSYS,
    };
    le.code()
}

/// The value a system call returns for error `e`: its number, negated.
pub fn neg_errno(e: Errno) -> (r: isize)
    ensures
        r == -errno_number(e),
        r < 0,
{
    let code = linux_error_code(e);
    -(code as isize)
}

} // verus!
