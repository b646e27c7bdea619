//! File-system facing types and the file operations of the kernel, which
//! report every operation as not supported yet.
use vstd::prelude::*;
use crate::error::KernelError;

verus! {

/// The kind of object a path names.
#[derive(Debug, Clone, Copy, PartialEq, Eq, Structural)]
pub enum FileType {
    Regular,
    Directory,
    SymLink,
    CharDevice,
    BlockDevice,
}

/// What `stat` reports of a file.
#[derive(Debug, Clone)]
pub struct FileStat {
    pub file_type: FileType,
    pub size: u64,
    pub inode: u64,
}

/// The flags of an `open` request, with the Linux values.
#[derive(Debug, Clone, Copy)]
pub struct OpenFlags(u32);

impl OpenFlags {
    /// The flag "read only".
    #[allow(non_snake_case)]
    pub fn RDONLY() -> (f: OpenFlags)
        ensures
            f.spec_bits() == 0o0,
    {
        OpenFlags(0o0)
    }

    /// The flag "write only".
    #[allow(non_snake_case)]
    pub fn WRONLY() -> (f: OpenFlags)
        ensures
            f.spec_bits() == 0o1,
    {
        OpenFlags(0o1)
    }

    /// The flag "read and write".
    #[allow(non_snake_case)]
    pub fn RDWR() -> (f: OpenFlags)
        ensures
            f.spec_bits() == 0o2,
    {
        OpenFlags(0o2)
    }

    /// The flag "create the file if missing".
    #[allow(non_snake_case)]
    pub fn CREATE() -> (f: OpenFlags)
        ensures
            f.spec_bits() == 0o100,
    {
        OpenFlags(0o100)
    }

    /// The flag "truncate the file".
    #[allow(non_snake_case)]
    pub fn TRUNC() -> (f: OpenFlags)
        ensures
            f.spec_bits() == 0o1000,
    {
        OpenFlags(0o1000)
    }

    /// The flag "append to the file".
    #[allow(non_snake_case)]
    pub fn APPEND() -> (f: OpenFlags)
        ensures
            f.spec_bits() == 0o2000,
    {
        OpenFlags(0o2000)
    }

    /// The raw flag bits.
    pub fn bits(&self) -> (b: u32)
        ensures
            b == self.spec_bits(),
    {
        self.0
    }

    /// The raw flag bits.
    pub closed spec fn spec_bits(&self) -> u32 {
        self.0
    }
}

/// Opens a file; not supported yet, so it always fails with `Unsupported`.
pub fn open(path: &str, flags: OpenFlags) -> (r: Result<usize, KernelError>)
    ensures
        r == Err::<usize, KernelError>(KernelError::Unsupported),
{
    Err(KernelError::Unsupported)
}

/// Closes a file; not supported yet, so it always fails with `Unsupported`.
pub fn close(fd: usize) -> (r: Result<(), KernelError>)
    ensures
        r == Err::<(), KernelError>(KernelError::Unsupported),
{
    Err(KernelError::Unsupported)
}

/// Reads from a file; not supported yet, so it always fails with
/// `Unsupported` and leaves `buf` as it was.
pub fn read(fd: usize, buf: &mut [u8]) -> (r: Result<usize, KernelError>)
    ensures
        r == Err::<usize, KernelError>(KernelError::Unsupported),
        final(buf)@ == old(buf)@,
{
    Err(KernelError::Unsupported)
}

/// Writes to a file; not supported yet, so it always fails with
/// `Unsupported`.
pub fn write(fd: usize, buf: &[u8]) -> (r: Result<usize, KernelError>)
    ensures
        r == Err::<usize, KernelError>(KernelError::Unsupported),
{
    Err(KernelError::Unsupported)
}

/// Reports a file's status; not supported yet, so it always fails with
/// `Unsupported`.
pub fn stat(path: &str) -> (r: Result<FileStat, KernelError>)
    ensures
        r is Err && r->Err_0 == KernelError::Unsupported,
{
    Err(KernelError::Unsupported)
}

} // verus!
