use myos::mm::{
    brk_decide, brk_outcome, mmap_decide, mmap_result, munmap_decide, munmap_result, BrkDecision, MmapPlan,
    RegionChange,
};
use myos::page::{align_down_4k, align_up_4k, MapPerm};
use myos::error::{neg_errno, Errno, KernelError};

const BASE: usize = 0x4000_0000;
const MAX: usize = 0x100_0000;

#[test]
fn page_alignment() {
    assert_eq!(align_down_4k(0x1234), 0x1000);
    assert_eq!(align_down_4k(0x2000), 0x2000);
    assert_eq!(align_up_4k(0x1234), Ok(0x2000));
    assert_eq!(align_up_4k(0x2000), Ok(0x2000));
    assert_eq!(align_up_4k(0), Ok(0));
    assert_eq!(align_up_4k(usize::MAX - 10), Err(KernelError::OutOfRange));
}

#[test]
fn errno_values() {
    assert_eq!(neg_errno(Errno::ENOENT), -2);
    assert_eq!(neg_errno(Errno::ESRCH), -3);
    assert_eq!(neg_errno(Errno::EIO), -5);
    assert_eq!(neg_errno(Errno::EBADF), -9);
    assert_eq!(neg_errno(Errno::ENOMEM), -12);
    assert_eq!(neg_errno(Errno::EFAULT), -14);
    assert_eq!(neg_errno(Errno::EINVAL), -22);
    assert_eq!(neg_errno(Errno::EMFILE), -24);
    assert_eq!(neg_errno(Errno::ENOSYS), -38);
}

#[test]
fn brk_zero_and_out_of_range_report_current() {
    let top = BASE + 0x1000;
    assert_eq!(brk_decide(top, 0, BASE, MAX), BrkDecision::Report(top));
    assert_eq!(brk_decide(top, BASE - 1, BASE, MAX), BrkDecision::Report(top));
    assert_eq!(brk_decide(top, BASE + MAX + 1, BASE, MAX), BrkDecision::Report(top));
    assert_eq!(brk_outcome(top, BrkDecision::Report(top), true), (top, top as isize));
}

#[test]
fn brk_grow_maps_whole_pages() {
    let top = BASE + 0x1800;
    let d = brk_decide(top, BASE + 0x4001, BASE, MAX);
    assert_eq!(
        d,
        BrkDecision::Move {
            change: Some(RegionChange::MapPages { start: BASE + 0x2000, len: 0x3000 }),
            new_top: BASE + 0x4001,
        }
    );
    assert_eq!(brk_outcome(top, d, true), (BASE + 0x4001, (BASE + 0x4001) as isize));
    assert_eq!(brk_outcome(top, d, false), (top, top as isize));
}

#[test]
fn brk_within_a_page_changes_no_mapping() {
    let top = BASE + 0x1800;
    let d = brk_decide(top, BASE + 0x1900, BASE, MAX);
    assert_eq!(d, BrkDecision::Move { change: None, new_top: BASE + 0x1900 });
    assert_eq!(brk_outcome(top, d, false), (BASE + 0x1900, (BASE + 0x1900) as isize));
    assert_eq!(brk_decide(top, top, BASE, MAX), BrkDecision::Move { change: None, new_top: top });
}

#[test]
fn brk_shrink_undoes_grow() {
    let t = BASE + 0x1800;
    let a = BASE + 0x9010;
    let grow = brk_decide(t, a, BASE, MAX);
    let shrink = brk_decide(a, t, BASE, MAX);
    match (grow, shrink) {
        (
            BrkDecision::Move { change: Some(RegionChange::MapPages { start: s1, len: l1 }), .. },
            BrkDecision::Move { change: Some(RegionChange::UnmapPages { start: s2, len: l2 }), .. },
        ) => {
            assert_eq!((s1, l1), (s2, l2));
            assert_eq!((s1, l1), (BASE + 0x2000, 0x8000));
        }
        _ => panic!("unexpected decisions"),
    }
}

#[test]
fn mmap_errors() {
    assert_eq!(mmap_decide(0, 0, 3, 0x22, 0x1000_0000), Err(Errno::EINVAL));
    assert_eq!(mmap_decide(0, 0x1000, 3, 0x02, 0x1000_0000), Err(Errno::ENOSYS));
}

#[test]
fn mmap_kernel_placed_advances_cursor() {
    let p1 = mmap_decide(0, 0x1001, 0x3, 0x22, 0x1000_0800).unwrap();
    assert_eq!(
        p1,
        MmapPlan {
            start: 0x1000_1000,
            len: 0x2000,
            perm: MapPerm { read: true, write: true, execute: false, user: true },
            fixed: false,
            new_mmap_base: Some(0x1000_3000),
        }
    );
    let p2 = mmap_decide(0, 0x10, 0x5, 0x22, p1.new_mmap_base.unwrap()).unwrap();
    assert_eq!(p2.start, 0x1000_3000);
    assert!(p1.start + p1.len <= p2.start);
    assert_eq!(p2.perm, MapPerm { read: true, write: false, execute: true, user: true });
    assert_eq!(mmap_result(&p2, true), 0x1000_3000);
    assert_eq!(mmap_result(&p2, false), -12);
}

#[test]
fn mmap_fixed_address_rounds_down() {
    let p = mmap_decide(0x5000_0123, 0x3000, 0x0, 0x32, 0x1000_0000).unwrap();
    assert_eq!(p.start, 0x5000_0000);
    assert_eq!(p.len, 0x3000);
    assert!(p.fixed);
    assert_eq!(p.new_mmap_base, None);
    assert_eq!(p.perm, MapPerm { read: false, write: false, execute: false, user: true });
}

#[test]
fn munmap_decisions() {
    assert_eq!(munmap_decide(0x1234, 0), Err(Errno::EINVAL));
    assert_eq!(munmap_decide(0x1234, 0x1001), Ok((0x1000, 0x2000)));
    assert_eq!(munmap_result(true), 0);
    assert_eq!(munmap_result(false), -22);
}

#[test]
fn brk_returns_the_break_it_leaves() {
    let top = BASE + 0x800;
    for (addr, ok) in [(BASE + 0x3000, true), (BASE + 0x3000, false), (0, true), (BASE + MAX + 5, true), (BASE + 0x10, true)] {
        let (t, r) = brk_outcome(top, brk_decide(top, addr, BASE, MAX), ok);
        assert_eq!(r, t as isize);
        assert_eq!(brk_outcome(t, brk_decide(t, 0, BASE, MAX), true), (t, r));
        let again = brk_decide(t, t, BASE, MAX);
        assert!(matches!(again, BrkDecision::Report(_) | BrkDecision::Move { change: None, .. }));
        assert_eq!(brk_outcome(t, again, false), (t, r));
    }
}

/// Runs one `mmap` that lets the kernel pick the address, as the system
/// call does: returns its result and the new cursor.
fn mmap_call(len: usize, cursor: usize, map_ok: bool) -> (isize, usize) {
    match mmap_decide(0, len, 3, 0x22, cursor) {
        Err(e) => (neg_errno(e), cursor),
        Ok(p) => (mmap_result(&p, map_ok), p.new_mmap_base.unwrap_or(cursor)),
    }
}

#[test]
fn successive_mmaps_do_not_overlap() {
    let (r1, c1) = mmap_call(0x1801, 0x2000_0123, true);
    let (r2, c2) = mmap_call(0x10, c1, true);
    assert_eq!(r1, 0x2000_1000);
    assert_eq!(r2, 0x2000_3000);
    assert_eq!(c2, 0x2000_4000);
    assert!(r2 >= r1 + 0x2000);
    let (f, c3) = mmap_call(0x1000, c2, false);
    assert_eq!(f, -12);
    let (r4, _) = mmap_call(0x1000, c3, true);
    assert_eq!(r4, 0x2000_5000);
}
