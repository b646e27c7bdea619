//! The decisions of the file system calls: where a read or write goes, what
//! a descriptor refers to, how `open` flags are read, what `fstat` reports,
//! how `writev` adds up its parts, and how a path is read from user memory.
use vstd::prelude::*;
use crate::error::{errno_number, neg_errno, Errno};
use crate::fd_table::{can_close, close_slot, fill_slot, is_alloc_slot, lookup, FdTable, FileDesc};

verus! {

pub const O_RDONLY: usize = 0o0;
pub const O_WRONLY: usize = 0o1;
pub const O_RDWR: usize = 0o2;
pub const O_CREAT: usize = 0o100;
pub const O_TRUNC: usize = 0o1000;
pub const O_APPEND: usize = 0o2000;

/// The longest path, in bytes of UTF-8, that is read from user memory.
pub const MAX_PATH_BYTES: usize = 4096;

/// The status record that `fstat` reports, with the fields of Linux's
/// `struct stat` in their order.  The application copies it into a record
/// with that memory layout before writing it to user memory.
#[derive(Clone, Copy)]
pub struct Stat {
    pub st_dev: u64,
    pub st_ino: u64,
    pub st_mode: u32,
    pub st_nlink: u32,
    pub st_uid: u32,
    pub st_gid: u32,
    pub st_rdev: u64,
    pub __pad1: u64,
    pub st_size: i64,
    pub st_blksize: i32,
    pub __pad2: i32,
    pub st_blocks: i64,
    pub st_atime: i64,
    pub st_atime_nsec: i64,
    pub st_mtime: i64,
    pub st_mtime_nsec: i64,
    pub st_ctime: i64,
    pub st_ctime_nsec: i64,
    pub __unused: [i32; 2],
}

/// Every field of the record is zero.
pub open spec fn stat_zeroed(s: Stat) -> bool {
    &&& s.st_dev == 0 && s.st_ino == 0 && s.st_mode == 0 && s.st_nlink == 0
    &&& s.st_uid == 0 && s.st_gid == 0 && s.st_rdev == 0 && s.__pad1 == 0
    &&& s.st_size == 0 && s.st_blksize == 0 && s.__pad2 == 0 && s.st_blocks == 0
    &&& s.st_atime == 0 && s.st_atime_nsec == 0 && s.st_mtime == 0 && s.st_mtime_nsec == 0
    &&& s.st_ctime == 0 && s.st_ctime_nsec == 0
    &&& s.__unused@ == seq![0i32, 0i32]
}

impl Default for Stat {
    fn default() -> (s: Self)
        ensures
            stat_zeroed(s),
    {
        Stat {
            st_dev: 0,
            st_ino: 0,
            st_mode: 0,
            st_nlink: 0,
            st_uid: 0,
            st_gid: 0,
            st_rdev: 0,
            __pad1: 0,
            st_size: 0,
            st_blksize: 0,
            __pad2: 0,
            st_blocks: 0,
            st_atime: 0,
            st_atime_nsec: 0,
            st_mtime: 0,
            st_mtime_nsec: 0,
            st_ctime: 0,
            st_ctime_nsec: 0,
            __unused: [0, 0],
        }
    }
}

/// The record `fstat` reports for a standard stream: a character device
/// readable and writable by all, device 0x8800 for standard input and
/// 0x8801 otherwise, every other field zero.
pub fn stat_for_stdio(fd: usize) -> (s: Stat)
    ensures
        s.st_mode == 0o020000 | 0o666,
        s.st_rdev == if fd == 0 {
            0x8800u64
        } else {
            0x8801u64
        },
        stat_zeroed(Stat { st_mode: 0, st_rdev: 0, ..s }),
{
    let mut stat = Stat::default();
    stat.st_mode = 0o020000 | 0o666;
    stat.st_rdev = if fd == 0 {
        0x8800
    } else {
        0x8801
    };
    stat
}

/// The record `fstat` reports for a file from its metadata: a regular file
/// (mode 0o100644) or a directory (0o040755), its size and block count, and
/// a block size of 4096; every other field zero.
pub fn stat_for_metadata(is_file: bool, is_dir: bool, len: u64, blocks: u64) -> (s: Stat)
    ensures
        s.st_mode == if is_file {
            0o100000u32 | 0o644u32
        } else if is_dir {
            0o040000u32 | 0o755u32
        } else {
            0u32
        },
        s.st_size == len as i64,
        s.st_blocks == blocks as i64,
        s.st_blksize == 4096,
        stat_zeroed(Stat { st_mode: 0, st_size: 0, st_blocks: 0, st_blksize: 0, ..s }),
{
    let mut stat = Stat::default();
    if is_file {
        stat.st_mode = 0o100000 | 0o644;
    } else if is_dir {
        stat.st_mode = 0o040000 | 0o755;
    }
    stat.st_size = len as i64;
    stat.st_blocks = blocks as i64;
    stat.st_blksize = 4096;
    stat
}

/// What a descriptor number refers to in a table.
pub enum FdLookup<'a, F> {
    Missing,
    Stdio,
    File(&'a F),
}

/// Looks a descriptor up: no entry, a standard stream, or an open file.
pub fn classify_fd<'a, F>(table: &'a FdTable<F>, fd: usize) -> (r: FdLookup<'a, F>)
    ensures
        match r {
            FdLookup::Missing => lookup(table@, fd as int) is None,
            FdLookup::Stdio => lookup(table@, fd as int) matches Some(d) && !(d is File),
            FdLookup::File(f) => lookup(table@, fd as int) == Some(FileDesc::File(*f)),
        },
{
    match table.get(fd) {
        None => FdLookup::Missing,
        Some(FileDesc::File(f)) => FdLookup::File(f),
        Some(_) => FdLookup::Stdio,
    }
}

/// What `fstat` looks up for `fd`: `-EBADF` for a missing descriptor,
/// otherwise a standard stream or an open file.
pub fn fstat_target<'a, F>(table: &'a FdTable<F>, fd: usize) -> (r: Result<FdLookup<'a, F>, isize>)
    ensures
        match r {
            Err(e) => e == -errno_number(Errno::EBADF) && lookup(table@, fd as int) is None,
            Ok(FdLookup::Missing) => false,
            Ok(FdLookup::Stdio) => lookup(table@, fd as int) matches Some(d) && !(d is File),
            Ok(FdLookup::File(f)) => lookup(table@, fd as int) == Some(FileDesc::File(*f)),
        },
{
    match classify_fd(table, fd) {
        FdLookup::Missing => Err(neg_errno(Errno::EBADF)),
        l => Ok(l),
    }
}

/// The record `fstat` reports for an open file from its metadata (whether
/// it is a regular file, whether a directory, its length and its block
/// count; see `stat_for_metadata`), or `-EIO` where reading the metadata
/// failed.
pub fn fstat_file_result(meta: Option<(bool, bool, u64, u64)>) -> (r: Result<Stat, isize>)
    ensures
        match meta {
            None => r matches Err(e) && e == -errno_number(Errno::EIO),
            Some((is_file, is_dir, len, blocks)) => r matches Ok(s) && s.st_mode == (if is_file {
                0o100000u32 | 0o644u32
            } else if is_dir {
                0o040000u32 | 0o755u32
            } else {
                0u32
            }) && s.st_size == len as i64 && s.st_blocks == blocks as i64 && s.st_blksize == 4096
                && stat_zeroed(Stat { st_mode: 0, st_size: 0, st_blocks: 0, st_blksize: 0, ..s }),
        },
{
    match meta {
        None => Err(neg_errno(Errno::EIO)),
        Some((is_file, is_dir, len, blocks)) => Ok(stat_for_metadata(is_file, is_dir, len, blocks)),
    }
}

/// What `openat` does with the result of opening the file: go on with the
/// file, or return `-ENOENT` where it could not be opened.
pub fn open_result<F>(opened: Option<F>) -> (r: Result<F, isize>)
    ensures
        match opened {
            None => r matches Err(e) && e == -errno_number(Errno::ENOENT),
            Some(f) => r == Ok::<F, isize>(f),
        },
{
    match opened {
        None => Err(neg_errno(Errno::ENOENT)),
        Some(f) => Ok(f),
    }
}

/// The open file a read or write on `fd` goes to; a missing descriptor or a
/// standard stream gives `EBADF`.
pub fn file_for_io<'a, F>(table: &'a FdTable<F>, fd: usize) -> (r: Result<&'a F, Errno>)
    ensures
        match r {
            Ok(f) => lookup(table@, fd as int) == Some(FileDesc::File(*f)),
            Err(e) => e == Errno::EBADF && !(lookup(table@, fd as int) matches Some(FileDesc::File(_))),
        },
{
    match classify_fd(table, fd) {
        FdLookup::File(f) => Ok(f),
        _ => Err(Errno::EBADF),
    }
}

/// What a file read or write returns: the byte count, or `-EIO` where it
/// failed.
pub fn io_result(n: Option<usize>) -> (r: isize)
    ensures
        match n {
            Some(k) => r == k as isize,
            None => r == -errno_number(Errno::EIO),
        },
{
    match n {
        Some(k) => k as isize,
        None => neg_errno(Errno::EIO),
    }
}

/// Where a `read` goes: nowhere for an empty buffer (it returns 0), to the
/// console for descriptor 0, and to the descriptor table otherwise.
#[derive(Clone, Copy, Debug, PartialEq, Eq, Structural)]
pub enum ReadRoute {
    Done(isize),
    Console,
    Table,
}

pub fn read_route(fd: usize, buf: usize, count: usize) -> (r: ReadRoute)
    ensures
        r == if buf == 0 || count == 0 {
            ReadRoute::Done(0)
        } else if fd == 0 {
            ReadRoute::Console
        } else {
            ReadRoute::Table
        },
{
    if buf == 0 || count == 0 {
        ReadRoute::Done(0)
    } else if fd == 0 {
        ReadRoute::Console
    } else {
        ReadRoute::Table
    }
}

/// One step of a console read that has stored `i` bytes of `count`: with no
/// byte available it returns what it has, or waits (yields) where it has
/// nothing; a byte is stored at `i`, and the read ends after a line break or
/// when the buffer is full.
#[derive(Clone, Copy, Debug, PartialEq, Eq, Structural)]
pub enum ConsoleStep {
    Yield,
    Finish(usize),
    Store { index: usize, byte: u8, finish: bool },
}

pub open spec fn console_step_spec(i: usize, count: usize, input: Option<u8>) -> ConsoleStep {
    match input {
        None => if i > 0 {
            ConsoleStep::Finish(i)
        } else {
            ConsoleStep::Yield
        },
        Some(c) => ConsoleStep::Store { index: i, byte: c, finish: c == 10 || c == 13 || i + 1 == count },
    }
}

/// A console read stores each byte it gets at the next free place of the
/// buffer, and ends right after a line feed or carriage return or when the
/// buffer is full; with no byte available it waits only while it has
/// stored nothing, and otherwise ends with the bytes it has.
pub proof fn law_console_read_stores_in_order(i: usize, count: usize, input: Option<u8>)
    requires
        i < count,
    ensures
        match console_step_spec(i, count, input) {
            ConsoleStep::Store { index, byte, finish } => {
                &&& input == Some(byte)
                &&& index == i && index < count
                &&& finish <==> (byte == 10 || byte == 13 || index + 1 == count)
            },
            ConsoleStep::Finish(n) => input is None && n == i && n > 0,
            ConsoleStep::Yield => input is None && i == 0,
        },
{
}

pub fn console_read_step(i: usize, count: usize, input: Option<u8>) -> (s: ConsoleStep)
    requires
        i < count,
    ensures
        s == console_step_spec(i, count, input),
{
    match input {
        None => if i > 0 {
            ConsoleStep::Finish(i)
        } else {
            ConsoleStep::Yield
        },
        Some(c) => ConsoleStep::Store {
            index: i,
            byte: c,
            finish: c == 10 || c == 13 || i + 1 == count,
        },
    }
}

/// Where a `write` goes: descriptors 1 and 2 print to the console and
/// return the byte count (0 for an empty buffer); other descriptors go to
/// the descriptor table.
#[derive(Clone, Copy, Debug, PartialEq, Eq, Structural)]
pub enum WriteRoute {
    Done(isize),
    Console(isize),
    Table,
}

pub fn write_route(fd: usize, buf: usize, count: usize) -> (r: WriteRoute)
    ensures
        r == if fd == 1 || fd == 2 {
            if buf == 0 || count == 0 {
                WriteRoute::Done(0)
            } else {
                WriteRoute::Console(count as isize)
            }
        } else {
            WriteRoute::Table
        },
{
    if fd == 1 || fd == 2 {
        if buf == 0 || count == 0 {
            return WriteRoute::Done(0);
        }
        return WriteRoute::Console(count as isize);
    }
    WriteRoute::Table
}

/// Closes `fd` in the calling process's table: 0 where it was an open
/// descriptor other than a standard stream, `-EBADF` otherwise.
pub fn sys_close<F>(table: &mut FdTable<F>, fd: usize) -> (r: isize)
    requires
        old(table).wf(),
    ensures
        final(table).wf(),
        final(table)@ == close_slot(old(table)@, fd as int),
        can_close(old(table)@, fd as int) ==> r == 0,
        !can_close(old(table)@, fd as int) ==> r == -errno_number(Errno::EBADF),
{
    if table.close(fd) {
        0
    } else {
        neg_errno(Errno::EBADF)
    }
}

/// How a file is to be opened.
#[derive(Clone, Copy, Debug, PartialEq, Eq, Structural)]
pub struct OpenMode {
    pub read: bool,
    pub write: bool,
    pub create: bool,
    pub truncate: bool,
    pub append: bool,
}

/// The open mode that `flags` asks for: the access mode in the low two bits
/// (an access mode of 3 fails with `EINVAL`) and the create, truncate and
/// append bits.
pub open spec fn open_mode_spec(flags: usize) -> Result<OpenMode, Errno> {
    let access = flags & 3;
    if access == 3 {
        Err(Errno::EINVAL)
    } else {
        Ok(
            OpenMode {
                read: access == O_RDONLY || access == O_RDWR,
                write: access == O_WRONLY || access == O_RDWR,
                create: flags & O_CREAT != 0,
                truncate: flags & O_TRUNC != 0,
                append: flags & O_APPEND != 0,
            },
        )
    }
}

/// Each flag of a decoded open mode is exactly its own bit of `flags`
/// (create 0o100, truncate 0o1000, append 0o2000), whatever the other bits;
/// the access mode in the low two bits opens for reading (0), writing (1)
/// or both (2), and 3 is refused.
pub proof fn law_open_flags_are_bits(flags: usize)
    ensures
        open_mode_spec(flags) is Err <==> flags & 3 == 3,
        open_mode_spec(flags) matches Ok(m) ==> {
            &&& m.create == (flags & 0o100 != 0)
            &&& m.truncate == (flags & 0o1000 != 0)
            &&& m.append == (flags & 0o2000 != 0)
            &&& m.read == (flags & 3 == 0 || flags & 3 == 2)
            &&& m.write == (flags & 3 == 1 || flags & 3 == 2)
        },
{
}

/// Decodes the flags of an `openat` call; see `open_mode_spec`.
pub fn decode_open_flags(flags: usize) -> (r: Result<OpenMode, Errno>)
    ensures
        r == open_mode_spec(flags),
{
    let access_mode = flags & 0o3;
    assert(flags & 3usize < 4) by (bit_vector);
    let mut mode = OpenMode { read: false, write: false, create: false, truncate: false, append: false };
    if access_mode == O_RDONLY {
        mode.read = true;
    } else if access_mode == O_WRONLY {
        mode.write = true;
    } else if access_mode == O_RDWR {
        mode.read = true;
        mode.write = true;
    } else {
        return Err(Errno::EINVAL);
    }
    if flags & O_CREAT != 0 {
        mode.create = true;
    }
    if flags & O_TRUNC != 0 {
        mode.truncate = true;
    }
    if flags & O_APPEND != 0 {
        mode.append = true;
    }
    Ok(mode)
}

/// Puts an opened file into the calling process's table and returns its
/// descriptor, the lowest free one from 3 on.
pub fn install_file<F>(table: &mut FdTable<F>, file: F) -> (r: isize)
    requires
        old(table).wf(),
    ensures
        final(table).wf(),
        exists|fd: int|
            is_alloc_slot(old(table)@, fd) && r == fd as isize && final(table)@ == fill_slot(
                old(table)@,
                fd,
                FileDesc::File(file),
            ),
{
    match table.alloc_fd(FileDesc::File(file)) {
        Some(fd) => fd as isize,
        None => neg_errno(Errno::EMFILE),
    }
}

/// What `fstat` returns before looking anything up: `-EFAULT` for a null
/// record address.
pub fn fstat_precheck(statbuf: usize) -> (r: Option<isize>)
    ensures
        statbuf == 0 ==> r == Some(-errno_number(Errno::EFAULT) as isize),
        statbuf != 0 ==> r is None,
{
    if statbuf == 0 {
        Some(neg_errno(Errno::EFAULT))
    } else {
        None
    }
}

/// The most parts a `writev` may have.
pub const IOV_MAX: usize = 1024;

/// What `writev` returns before writing anything: 0 for a null or empty
/// vector, `-EINVAL` for more than `IOV_MAX` parts.
pub fn writev_precheck(iov: usize, iovcnt: usize) -> (r: Option<isize>)
    ensures
        r == if iov == 0 || iovcnt == 0 {
            Some(0isize)
        } else if iovcnt > IOV_MAX {
            Some(-errno_number(Errno::EINVAL) as isize)
        } else {
            None
        },
{
    if iov == 0 || iovcnt == 0 {
        return Some(0);
    }
    if iovcnt > IOV_MAX {
        return Some(neg_errno(Errno::EINVAL));
    }
    None
}

/// A part of a `writev` that is skipped: one with a null base or no length.
pub fn iovec_skipped(base: usize, len: usize) -> (b: bool)
    ensures
        b == (base == 0 || len == 0),
{
    base == 0 || len == 0
}

/// What `writev` does after one part's write: go on with the new total, or
/// end the call with the value it returns.
#[derive(Clone, Copy, Debug, PartialEq, Eq, Structural)]
pub enum WritevStep {
    Continue(isize),
    Finish(isize),
}

/// The step after a part's write returned `ret` with `total` written before
/// it: an error ends the call, returning what was written where that is
/// something and the error otherwise; a count is added.
pub open spec fn writev_step_spec(total: isize, ret: isize) -> WritevStep {
    if ret < 0 {
        WritevStep::Finish(if total > 0 {
            total
        } else {
            ret
        })
    } else {
        WritevStep::Continue((total + ret) as isize)
    }
}

/// See `writev_step_spec`.
pub fn writev_step(total: isize, ret: isize) -> (s: WritevStep)
    requires
        ret >= 0 ==> total + ret <= isize::MAX,
    ensures
        s == writev_step_spec(total, ret),
{
    if ret < 0 {
        return WritevStep::Finish(if total > 0 {
            total
        } else {
            ret
        });
    }
    WritevStep::Continue(total + ret)
}

/// What `writev` returns when the writes of its parts that are not skipped
/// return `rets`, in order, after `total` bytes were written: each count is
/// added while the writes succeed, and the first error ends the call.
pub open spec fn writev_result(total: int, rets: Seq<isize>) -> int
    decreases rets.len(),
{
    if rets.len() == 0 {
        total
    } else if rets[0] < 0 {
        if total > 0 {
            total
        } else {
            rets[0] as int
        }
    } else {
        writev_result(total + rets[0], rets.drop_first())
    }
}

/// The sum of the counts.
pub open spec fn counts_sum(rets: Seq<isize>) -> int
    decreases rets.len(),
{
    if rets.len() == 0 {
        0
    } else {
        rets[0] + counts_sum(rets.drop_first())
    }
}

/// Each step of `writev` follows `writev_result`: an error step returns
/// the call's result, and a count step leaves the same result to come.
pub proof fn law_writev_step_follows_result(total: isize, rets: Seq<isize>)
    requires
        rets.len() > 0,
        rets[0] >= 0 ==> total + rets[0] <= isize::MAX,
    ensures
        match writev_step_spec(total, rets[0]) {
            WritevStep::Finish(v) => v == writev_result(total as int, rets),
            WritevStep::Continue(t) => writev_result(total as int, rets) == writev_result(
                t as int,
                rets.drop_first(),
            ),
        },
{
}

/// Where every write succeeds, `writev` returns what was written before
/// them plus the sum of their counts.
proof fn lemma_writev_all_succeed(total: int, rets: Seq<isize>)
    requires
        forall|i: int| 0 <= i < rets.len() ==> rets[i] >= 0,
    ensures
        writev_result(total, rets) == total + counts_sum(rets),
    decreases rets.len(),
{
    if rets.len() > 0 {
        assert(rets[0] >= 0);
        lemma_writev_all_succeed(total + rets[0], rets.drop_first());
    }
}

/// Where write `k` is the first to fail, `writev` returns what was written
/// up to it if that is something, and its error otherwise.
proof fn lemma_writev_first_error(total: int, rets: Seq<isize>, k: int)
    requires
        total >= 0,
        0 <= k < rets.len(),
        rets[k] < 0,
        forall|i: int| 0 <= i < k ==> rets[i] >= 0,
    ensures
        writev_result(total, rets) == if total + counts_sum(rets.take(k)) > 0 {
            total + counts_sum(rets.take(k))
        } else {
            rets[k] as int
        },
    decreases k,
{
    if k == 0 {
        assert(rets.take(0) =~= Seq::<isize>::empty());
    } else {
        assert(rets[0] >= 0);
        assert(rets.take(k).drop_first() =~= rets.drop_first().take(k - 1));
        assert(rets.take(k)[0] == rets[0]);
        lemma_writev_first_error(total + rets[0], rets.drop_first(), k - 1);
    }
}

/// What `writev` returns, over the results `rets` of the writes of its parts
/// that are not skipped: the sum of the counts where every write succeeds;
/// where write `k` is the first to fail, the sum of the counts before it if
/// that is more than zero, and its error otherwise.
pub proof fn law_writev_returns_sum_or_first_error(rets: Seq<isize>, k: int)
    ensures
        (forall|i: int| 0 <= i < rets.len() ==> rets[i] >= 0) ==> writev_result(0, rets) == counts_sum(
            rets,
        ),
        (0 <= k < rets.len() && rets[k] < 0 && forall|i: int| 0 <= i < k ==> rets[i] >= 0) ==> writev_result(
            0,
            rets,
        ) == if counts_sum(rets.take(k)) > 0 {
            counts_sum(rets.take(k))
        } else {
            rets[k] as int
        },
{
    if forall|i: int| 0 <= i < rets.len() ==> rets[i] >= 0 {
        lemma_writev_all_succeed(0, rets);
    }
    if 0 <= k < rets.len() && rets[k] < 0 && forall|i: int| 0 <= i < k ==> rets[i] >= 0 {
        lemma_writev_first_error(0, rets, k);
    }
}

/// The number of bytes of UTF-8 that the characters of these bytes take,
/// each byte read as the character of the same number.
pub open spec fn latin1_utf8_len(bytes: Seq<u8>) -> int
    decreases bytes.len(),
{
    if bytes.len() == 0 {
        0
    } else {
        latin1_utf8_len(bytes.drop_last()) + if bytes.last() < 0x80 {
            1int
        } else {
            2int
        }
    }
}

/// A path being read from user memory byte by byte; each byte becomes the
/// character of the same number.
pub struct UserStringReader {
    bytes: Vec<u8>,
    utf8_len: usize,
}

/// What reading one more byte of a path gives: the path is complete (a zero
/// byte), too long, or goes on.
#[derive(Clone, Copy, Debug, PartialEq, Eq, Structural)]
pub enum StringStep {
    Continue,
    Done,
    TooLong,
}

impl UserStringReader {
    /// The bytes read so far.
    pub closed spec fn view(&self) -> Seq<u8> {
        self.bytes@
    }

    pub closed spec fn wf(&self) -> bool {
        &&& self.utf8_len == latin1_utf8_len(self.bytes@)
        &&& self.utf8_len <= MAX_PATH_BYTES
    }

    /// Starts reading the path at `addr`; a null address has no path.
    pub fn new(addr: usize) -> (r: Option<Self>)
        ensures
            addr == 0 <==> r is None,
            r matches Some(s) ==> s.wf() && s@ == Seq::<u8>::empty(),
    {
        if addr == 0 {
            return None;
        }
        Some(UserStringReader { bytes: Vec::new(), utf8_len: 0 })
    }

    /// Takes the next byte: a zero ends the path; any other byte is added,
    /// and the path is too long once it takes more than `MAX_PATH_BYTES`
    /// bytes of UTF-8.
    pub fn push(&mut self, c: u8) -> (s: StringStep)
        requires
            old(self).wf(),
        ensures
            c == 0 ==> s == StringStep::Done && final(self)@ == old(self)@,
            c != 0 ==> final(self)@ == old(self)@.push(c) && (s == if latin1_utf8_len(
                final(self)@,
            ) > MAX_PATH_BYTES {
                StringStep::TooLong
            } else {
                StringStep::Continue
            }),
            s != StringStep::TooLong ==> final(self).wf(),
    {
        if c == 0 {
            return StringStep::Done;
        }
        let ghost before = self.bytes@;
        self.bytes.push(c);
        assert(self.bytes@.drop_last() =~= before);
        self.utf8_len = self.utf8_len + if c < 0x80 {
            1
        } else {
            2
        };
        if self.utf8_len > MAX_PATH_BYTES {
            StringStep::TooLong
        } else {
            StringStep::Continue
        }
    }

    /// The path read: each byte as the character of the same number.
    pub fn into_chars(self) -> (r: Vec<char>)
        ensures
            r@.len() == self@.len(),
            forall|i: int| 0 <= i < r@.len() ==> #[trigger] r@[i] == self@[i] as char,
    {
        let mut out: Vec<char> = Vec::new();
        let mut i: usize = 0;
        while i < self.bytes.len()
            invariant
                i <= self.bytes@.len(),
                out@.len() == i,
                forall|k: int| 0 <= k < i ==> #[trigger] out@[k] == self.bytes@[k] as char,
            decreases self.bytes@.len() - i,
        {
            out.push(self.bytes[i] as char);
            i = i + 1;
        }
        out
    }
}

} // verus!
