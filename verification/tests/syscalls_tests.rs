use myos::fd_table::{FdTable, FileDesc};
use myos::fs_calls::{
    classify_fd, console_read_step, decode_open_flags, file_for_io, fstat_file_result, fstat_precheck, fstat_target,
    install_file, io_result, open_result,
    iovec_skipped, read_route, stat_for_metadata, stat_for_stdio, sys_close, write_route, writev_precheck,
    writev_step, ConsoleStep, FdLookup, OpenMode, ReadRoute, Stat, StringStep, UserStringReader, WriteRoute,
    WritevStep,
};
use myos::error::Errno;
use myos::loader::TargetArch;
use myos::misc::{sys_clock_gettime, sys_clone, sys_nanosleep, sys_uname, timespec_of, ClockSource, Timespec};
use myos::page::MapPerm;
use myos::task::{new_user_plan, page_fault_action, FaultAction, RegionPlan, UserMemConfig};

#[test]
fn unimplemented_calls_return_enosys() {
    assert_eq!(sys_nanosleep(1, 2), -38);
    assert_eq!(sys_clone([1, 2, 3, 4, 5, 6]), -38);
}

fn uts_field(v: &[u8], k: usize) -> &[u8] {
    let f = &v[k * 65..(k + 1) * 65];
    let end = f.iter().position(|&b| b == 0).unwrap();
    assert!(f[end..].iter().all(|&b| b == 0));
    &f[..end]
}

/// The value `writev` returns when the writes of its parts return `rets`.
fn writev_total(rets: &[isize]) -> isize {
    let mut total = 0;
    for &r in rets {
        match writev_step(total, r) {
            WritevStep::Finish(v) => return v,
            WritevStep::Continue(t) => total = t,
        }
    }
    total
}

#[test]
fn open_and_fstat_results() {
    assert_eq!(open_result(Some(5u32)), Ok(5));
    assert_eq!(open_result::<u32>(None), Err(-2));
    let s = fstat_file_result(Some((true, false, 1234, 3))).ok().unwrap();
    assert_eq!((s.st_mode, s.st_size, s.st_blocks, s.st_blksize), (0o100644, 1234, 3, 4096));
    assert_eq!(fstat_file_result(Some((false, true, 0, 0))).ok().unwrap().st_mode, 0o040755);
    assert!(matches!(fstat_file_result(None), Err(-5)));
}

#[test]
fn uname_reports_the_system() {
    let v = sys_uname(0x1000, TargetArch::RiscV64).unwrap();
    assert_eq!(v.len(), 6 * 65);
    assert_eq!(uts_field(&v, 0), b"Linux");
    assert_eq!(uts_field(&v, 1), b"myos");
    assert_eq!(uts_field(&v, 2), b"0.1.0");
    assert_eq!(uts_field(&v, 3), b"#1 SMP");
    assert_eq!(uts_field(&v, 4), b"riscv64");
    assert_eq!(uts_field(&v, 5), b"(none)");
    let l = sys_uname(0x1000, TargetArch::LoongArch64).unwrap();
    assert_eq!(uts_field(&l, 4), b"loongarch64");
    assert_eq!(uts_field(&sys_uname(8, TargetArch::Other).unwrap(), 4), b"unknown");
    assert_eq!(sys_uname(0, TargetArch::RiscV64), Err(-14));
}

#[test]
fn clock_gettime_picks_the_clock() {
    assert_eq!(sys_clock_gettime(0, 0x1000), Ok(ClockSource::Realtime));
    assert_eq!(sys_clock_gettime(1, 0x1000), Ok(ClockSource::Monotonic));
    assert_eq!(sys_clock_gettime(7, 0x1000), Err(-22));
    assert_eq!(sys_clock_gettime(-1, 0), Err(-22));
    assert_eq!(sys_clock_gettime(1, 0), Err(-14));
    assert_eq!(timespec_of(3_500_000_000), Timespec { tv_sec: 3, tv_nsec: 500_000_000 });
    assert_eq!(timespec_of(999_999_999), Timespec { tv_sec: 0, tv_nsec: 999_999_999 });
    assert_eq!(timespec_of(0), Timespec { tv_sec: 0, tv_nsec: 0 });
}

#[test]
fn stat_records() {
    let d = Stat::default();
    assert_eq!(d.st_mode, 0);
    assert_eq!(d.st_size, 0);
    let s0 = stat_for_stdio(0);
    assert_eq!(s0.st_mode, 0o020666);
    assert_eq!(s0.st_rdev, 0x8800);
    assert_eq!(stat_for_stdio(1).st_rdev, 0x8801);
    let f = stat_for_metadata(true, false, 1234, 3);
    assert_eq!(f.st_mode, 0o100644);
    assert_eq!(f.st_size, 1234);
    assert_eq!(f.st_blocks, 3);
    assert_eq!(f.st_blksize, 4096);
    assert_eq!(stat_for_metadata(false, true, 0, 0).st_mode, 0o040755);
    assert_eq!(stat_for_metadata(false, false, 0, 0).st_mode, 0);
    assert_eq!(fstat_precheck(0), Some(-14));
    assert_eq!(fstat_precheck(8), None);
}

#[test]
fn descriptor_lookups() {
    let mut t: FdTable<u32> = FdTable::new();
    assert_eq!(install_file(&mut t, 77), 3);
    assert!(matches!(classify_fd(&t, 3), FdLookup::File(&77)));
    assert!(matches!(classify_fd(&t, 1), FdLookup::Stdio));
    assert!(matches!(classify_fd(&t, 9), FdLookup::Missing));
    assert_eq!(file_for_io(&t, 3), Ok(&77));
    assert_eq!(file_for_io(&t, 0), Err(Errno::EBADF));
    assert_eq!(file_for_io(&t, 5), Err(Errno::EBADF));
    assert!(matches!(fstat_target(&t, 3), Ok(FdLookup::File(&77))));
    assert!(matches!(fstat_target(&t, 0), Ok(FdLookup::Stdio)));
    assert!(matches!(fstat_target(&t, 9), Err(-9)));
    assert_eq!(sys_close(&mut t, 3), 0);
    assert_eq!(sys_close(&mut t, 3), -9);
    assert_eq!(sys_close(&mut t, 2), -9);
    assert!(matches!(t.get(2), Some(FileDesc::Stderr)));
}

#[test]
fn read_and_write_routes() {
    assert_eq!(read_route(3, 0, 10), ReadRoute::Done(0));
    assert_eq!(read_route(3, 0x1000, 0), ReadRoute::Done(0));
    assert_eq!(read_route(0, 0x1000, 10), ReadRoute::Console);
    assert_eq!(read_route(3, 0x1000, 10), ReadRoute::Table);
    assert_eq!(write_route(1, 0x1000, 5), WriteRoute::Console(5));
    assert_eq!(write_route(2, 0, 5), WriteRoute::Done(0));
    assert_eq!(write_route(0, 0x1000, 5), WriteRoute::Table);
    assert_eq!(write_route(4, 0x1000, 5), WriteRoute::Table);
    assert_eq!(io_result(Some(12)), 12);
    assert_eq!(io_result(None), -5);
}

#[test]
fn console_read_steps() {
    assert_eq!(console_read_step(0, 4, None), ConsoleStep::Yield);
    assert_eq!(console_read_step(2, 4, None), ConsoleStep::Finish(2));
    assert_eq!(console_read_step(0, 4, Some(b'a')), ConsoleStep::Store { index: 0, byte: b'a', finish: false });
    assert_eq!(console_read_step(1, 4, Some(b'\n')), ConsoleStep::Store { index: 1, byte: b'\n', finish: true });
    assert_eq!(console_read_step(1, 4, Some(b'\r')), ConsoleStep::Store { index: 1, byte: b'\r', finish: true });
    assert_eq!(console_read_step(3, 4, Some(b'z')), ConsoleStep::Store { index: 3, byte: b'z', finish: true });
}

#[test]
fn open_flag_decoding() {
    assert_eq!(
        decode_open_flags(0),
        Ok(OpenMode { read: true, write: false, create: false, truncate: false, append: false })
    );
    assert_eq!(
        decode_open_flags(0o1 | 0o100 | 0o1000),
        Ok(OpenMode { read: false, write: true, create: true, truncate: true, append: false })
    );
    assert_eq!(
        decode_open_flags(0o2 | 0o2000),
        Ok(OpenMode { read: true, write: true, create: false, truncate: false, append: true })
    );
    assert_eq!(decode_open_flags(3), Err(Errno::EINVAL));
}

#[test]
fn writev_accumulation() {
    assert_eq!(writev_precheck(0, 3), Some(0));
    assert_eq!(writev_precheck(0x1000, 0), Some(0));
    assert_eq!(writev_precheck(0x1000, 1025), Some(-22));
    assert_eq!(writev_precheck(0x1000, 1024), None);
    assert!(iovec_skipped(0, 5));
    assert!(iovec_skipped(5, 0));
    assert!(!iovec_skipped(5, 5));
    assert_eq!(writev_step(0, 4), WritevStep::Continue(4));
    assert_eq!(writev_step(4, 6), WritevStep::Continue(10));
    assert_eq!(writev_step(10, -5), WritevStep::Finish(10));
    assert_eq!(writev_step(0, -9), WritevStep::Finish(-9));
    assert_eq!(writev_total(&[3, 5, 7]), 15);
    assert_eq!(writev_total(&[3, 5, -9, 7]), 8);
    assert_eq!(writev_total(&[-9, 7]), -9);
    assert_eq!(writev_total(&[0, -5, 7]), -5);
    assert_eq!(writev_total(&[]), 0);
}

#[test]
fn reading_a_path() {
    let mut r = UserStringReader::new(0x1000).unwrap();
    for b in b"/bin/sh" {
        assert_eq!(r.push(*b), StringStep::Continue);
    }
    assert_eq!(r.push(0), StringStep::Done);
    let s: String = r.into_chars().into_iter().collect();
    assert_eq!(s, "/bin/sh");
    assert!(UserStringReader::new(0).is_none());
    let mut w = UserStringReader::new(1).unwrap();
    assert_eq!(w.push(0xe9), StringStep::Continue);
    let t: String = w.into_chars().into_iter().collect();
    assert_eq!(t, "\u{e9}");
}

#[test]
fn overlong_path_is_refused() {
    let mut r = UserStringReader::new(0x1000).unwrap();
    for _ in 0..4096 {
        assert_eq!(r.push(b'a'), StringStep::Continue);
    }
    assert_eq!(r.push(b'a'), StringStep::TooLong);
    let mut w = UserStringReader::new(0x1000).unwrap();
    for _ in 0..2048 {
        assert_eq!(w.push(0xff), StringStep::Continue);
    }
    assert_eq!(w.push(0xff), StringStep::TooLong);
}

#[test]
fn new_process_layout() {
    let cfg = UserMemConfig {
        space_base: 0x1000,
        space_size: 0x3f_ffff_e000,
        stack_top: 0x4_0000_0000,
        stack_size: 0x1_0000,
        heap_base: 0x4000_0000,
        heap_size: 0x1_0000,
        mmap_base: 0x10_0000_0000,
    };
    let p = new_user_plan(&cfg);
    let rw = MapPerm { read: true, write: true, execute: false, user: true };
    assert_eq!(p.stack, RegionPlan { start: 0x3_ffff_0000, size: 0x1_0000, perm: rw, populate: true });
    assert_eq!(p.heap, RegionPlan { start: 0x4000_0000, size: 0x1_0000, perm: rw, populate: false });
    assert_eq!(p.heap_top, 0x4001_0000);
    assert_eq!(p.mmap_base, 0x10_0000_0000);
    assert_eq!(p.stack_top, 0x4_0000_0000);
    assert_eq!(p.entry, 0);
}

#[test]
fn page_fault_decisions() {
    assert_eq!(page_fault_action(false, true, true), FaultAction::Reject);
    assert_eq!(page_fault_action(true, false, false), FaultAction::Reject);
    assert_eq!(page_fault_action(true, true, true), FaultAction::Delegate { write: true });
    assert_eq!(page_fault_action(true, true, false), FaultAction::Delegate { write: false });
}
