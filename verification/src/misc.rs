//! The system calls that report on the system: `uname` and `clock_gettime`,
//! and the two that this kernel does not implement yet, which return
//! `-ENOSYS`.
//!
//! The library decides what each call answers; the application reads the
//! clock and copies the answer into user memory.
use vstd::prelude::*;
use vstd::string::is_ascii;
use crate::error::{errno_number, neg_errno, Errno};
use crate::loader::TargetArch;

verus! {

/// The length of each field of `struct utsname`, its terminating NUL
/// included.
pub const UTS_FIELD_LEN: usize = 65;

/// ASCII text as bytes.
pub open spec fn ascii_bytes(s: Seq<char>) -> Seq<u8> {
    Seq::new(s.len(), |i: int| s[i] as u8)
}

/// `s` as one field of `struct utsname`: its bytes, then NULs up to the
/// field's length.
pub open spec fn uts_field(s: Seq<char>) -> Seq<u8> {
    ascii_bytes(s) + Seq::new((UTS_FIELD_LEN - s.len()) as nat, |i: int| 0u8)
}

/// The machine name that `uname` reports for each architecture.
pub open spec fn uts_machine(arch: TargetArch) -> Seq<char> {
    match arch {
        TargetArch::RiscV64 => "riscv64"@,
        TargetArch::LoongArch64 => "loongarch64"@,
        TargetArch::Other => "unknown"@,
    }
}

/// The record that `uname` writes: the system's name (that of the interface
/// this kernel offers, so that C libraries accept it), the node's name, the
/// release, the version, the machine and the domain, one field each.
pub open spec fn utsname_spec(arch: TargetArch) -> Seq<u8> {
    uts_field("Linux"@) + uts_field("myos"@) + uts_field("0.1.0"@) + uts_field("#1 SMP"@) + uts_field(
        uts_machine(arch),
    ) + uts_field("(none)"@)
}

/// The record that `uname` writes is six fields of 65 bytes; each holds
/// its text followed only by zero bytes, so that every field ends with a
/// zero byte; the machine field names the architecture.
pub proof fn law_utsname_layout(arch: TargetArch)
    ensures
        utsname_spec(arch).len() == 6 * UTS_FIELD_LEN,
        forall|k: int| 0 <= k < 6 ==> #[trigger] utsname_spec(arch)[65 * k + 64] == 0,
        utsname_spec(arch).subrange(260int, 260 + uts_machine(arch).len() as int) == ascii_bytes(
            uts_machine(arch),
        ),
        uts_machine(arch).len() > 0,
{
    reveal_strlit("Linux");
    reveal_strlit("myos");
    reveal_strlit("0.1.0");
    reveal_strlit("#1 SMP");
    reveal_strlit("riscv64");
    reveal_strlit("loongarch64");
    reveal_strlit("unknown");
    reveal_strlit("(none)");
    let r = utsname_spec(arch);
    assert(r.len() == 390);
    assert forall|k: int| 0 <= k < 6 implies #[trigger] r[65 * k + 64] == 0 by {
        if k == 0 {
            assert(r[64] == uts_field("Linux"@)[64]);
        } else if k == 1 {
            assert(r[129] == uts_field("myos"@)[64]);
        } else if k == 2 {
            assert(r[194] == uts_field("0.1.0"@)[64]);
        } else if k == 3 {
            assert(r[259] == uts_field("#1 SMP"@)[64]);
        } else if k == 4 {
            assert(r[324] == uts_field(uts_machine(arch))[64]);
        } else {
            assert(r[389] == uts_field("(none)"@)[64]);
        }
    }
    assert(r.subrange(260, 260 + uts_machine(arch).len() as int) =~= ascii_bytes(uts_machine(arch)));
}

/// Appends `s` as one field of `struct utsname`.
fn push_uts_field(out: &mut Vec<u8>, s: &str)
    requires
        is_ascii(s),
        s@.len() < UTS_FIELD_LEN,
    ensures
        final(out)@ == old(out)@ + uts_field(s@),
{
    let ghost start = out@;
    let bytes = s.as_bytes();
    proof {
        vstd::string::is_ascii_spec_bytes(s);
    }
    let n = bytes.len();
    let mut i: usize = 0;
    while i < n
        invariant
            n == s@.len(),
            bytes@ == ascii_bytes(s@),
            i <= n,
            out@ == start + ascii_bytes(s@).take(i as int),
        decreases n - i,
    {
        out.push(bytes[i]);
        assert(ascii_bytes(s@).take(i as int + 1) =~= ascii_bytes(s@).take(i as int).push(bytes@[i as int]));
        i = i + 1;
    }
    assert(ascii_bytes(s@).take(n as int) =~= ascii_bytes(s@));
    while i < UTS_FIELD_LEN
        invariant
            n == s@.len(),
            n <= i <= UTS_FIELD_LEN,
            out@ == start + ascii_bytes(s@) + Seq::new((i - n) as nat, |k: int| 0u8),
        decreases UTS_FIELD_LEN - i,
    {
        out.push(0);
        assert(Seq::new((i + 1 - n) as nat, |k: int| 0u8) =~= Seq::new((i - n) as nat, |k: int| 0u8).push(0u8));
        i = i + 1;
    }
    assert(start + ascii_bytes(s@) + Seq::new((UTS_FIELD_LEN - n) as nat, |k: int| 0u8) =~= start + uts_field(s@));
}

/// `uname`: the record to copy to `buf` (after which the call returns 0),
/// or `-EFAULT` where `buf` is null.
pub fn sys_uname(buf: usize, arch: TargetArch) -> (r: Result<Vec<u8>, isize>)
    ensures
        buf == 0 ==> r == Err::<Vec<u8>, isize>(-errno_number(Errno::EFAULT) as isize),
        buf != 0 ==> (r matches Ok(v) && v@ == utsname_spec(arch)),
{
    if buf == 0 {
        return Err(neg_errno(Errno::EFAULT));
    }
    let mut out: Vec<u8> = Vec::new();
    let machine = match arch {
        TargetArch::RiscV64 => "riscv64",
        TargetArch::LoongArch64 => "loongarch64",
        TargetArch::Other => "unknown",
    };
    proof {
        reveal_strlit("Linux");
        reveal_strlit("myos");
        reveal_strlit("0.1.0");
        reveal_strlit("#1 SMP");
        reveal_strlit("riscv64");
        reveal_strlit("loongarch64");
        reveal_strlit("unknown");
        reveal_strlit("(none)");
    }
    push_uts_field(&mut out, "Linux");
    push_uts_field(&mut out, "myos");
    push_uts_field(&mut out, "0.1.0");
    push_uts_field(&mut out, "#1 SMP");
    push_uts_field(&mut out, machine);
    push_uts_field(&mut out, "(none)");
    Ok(out)
}

/// The clocks that `clock_gettime` reads.
#[derive(Clone, Copy, Debug, PartialEq, Eq, Structural)]
pub enum ClockSource {
    /// `CLOCK_REALTIME`: the time of day.
    Realtime,
    /// `CLOCK_MONOTONIC`: the time since boot.
    Monotonic,
}

/// The clock identifier of the time of day.
pub const CLOCK_REALTIME: i32 = 0;

/// The clock identifier of the time since boot.
pub const CLOCK_MONOTONIC: i32 = 1;

/// Nanoseconds in a second.
pub const NANOS_PER_SEC: u64 = 1_000_000_000;

/// `clock_gettime`: the clock to read, whose time the application then
/// writes at `tp` as a `Timespec` (and the call returns 0); `-EINVAL` for a
/// clock it does not know, `-EFAULT` where `tp` is null.
pub fn sys_clock_gettime(clockid: i32, tp: usize) -> (r: Result<ClockSource, isize>)
    ensures
        r == if clockid != CLOCK_REALTIME && clockid != CLOCK_MONOTONIC {
            Err::<ClockSource, isize>(-errno_number(Errno::EINVAL) as isize)
        } else if tp == 0 {
            Err::<ClockSource, isize>(-errno_number(Errno::EFAULT) as isize)
        } else if clockid == CLOCK_REALTIME {
            Ok::<ClockSource, isize>(ClockSource::Realtime)
        } else {
            Ok::<ClockSource, isize>(ClockSource::Monotonic)
        },
{
    if clockid != CLOCK_REALTIME && clockid != CLOCK_MONOTONIC {
        return Err(neg_errno(Errno::EINVAL));
    }
    if tp == 0 {
        return Err(neg_errno(Errno::EFAULT));
    }
    if clockid == CLOCK_REALTIME {
        Ok(ClockSource::Realtime)
    } else {
        Ok(ClockSource::Monotonic)
    }
}

/// `struct timespec`: whole seconds and the nanoseconds past them.
#[derive(Clone, Copy, Debug, PartialEq, Eq, Structural)]
pub struct Timespec {
    pub tv_sec: u64,
    pub tv_nsec: u64,
}

/// A time in nanoseconds as a `Timespec`.
pub fn timespec_of(nanos: u64) -> (t: Timespec)
    ensures
        t.tv_sec == nanos / NANOS_PER_SEC,
        t.tv_nsec == nanos % NANOS_PER_SEC,
        t.tv_nsec < NANOS_PER_SEC,
        t.tv_sec * NANOS_PER_SEC + t.tv_nsec == nanos,
{
    Timespec { tv_sec: nanos / NANOS_PER_SEC, tv_nsec: nanos % NANOS_PER_SEC }
}

/// `nanosleep`; not implemented yet.
pub fn sys_nanosleep(req: usize, rem: usize) -> (r: isize)
    ensures
        r == -errno_number(Errno::ENOSYS),
{
    neg_errno(Errno::ENOSYS)
}

/// `clone`; not implemented yet: it reads none of its arguments (flags,
/// stack, parent tid, thread pointer, child tid).
pub fn sys_clone(args: [usize; 6]) -> (r: isize)
    ensures
        r == -errno_number(Errno::ENOSYS),
{
    neg_errno(Errno::ENOSYS)
}

} // verus!
