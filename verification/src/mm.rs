//! The decisions of the memory system calls `brk`, `mmap` and `munmap`:
//! which pages to map or unmap, what the heap's break and the anonymous
//! mapping cursor become, and what each call returns.
use vstd::prelude::*;
use crate::error::{errno_number, neg_errno, Errno};
use crate::page::{page_ceil, page_floor, MapPerm};

verus! {

pub const PROT_READ: usize = 0x1;
pub const PROT_WRITE: usize = 0x2;
pub const PROT_EXEC: usize = 0x4;
pub const MAP_ANONYMOUS: usize = 0x20;
pub const MAP_FIXED: usize = 0x10;
pub const PAGE_SIZE: usize = 0x1000;

/// A change to a process's mappings: map or unmap `len` bytes at `start`.
#[derive(Clone, Copy, Debug, PartialEq, Eq, Structural)]
pub enum RegionChange {
    MapPages { start: usize, len: usize },
    UnmapPages { start: usize, len: usize },
}

/// What a `brk` call does: report a value and change nothing, or move the
/// break to `new_top` after making the change to the mappings.
#[derive(Clone, Copy, Debug, PartialEq, Eq, Structural)]
pub enum BrkDecision {
    Report(usize),
    Move { change: Option<RegionChange>, new_top: usize },
}

/// `addr` is a break that `brk` accepts: not zero and within the heap's
/// limits.
pub open spec fn brk_accepts(addr: usize, heap_base: usize, heap_max: usize) -> bool {
    addr != 0 && heap_base <= addr <= heap_base + heap_max
}

/// The `brk` decision for the current break `top` and request `addr`: zero
/// or an address outside `[heap_base, heap_base + heap_max]` reports the
/// current break; a higher break maps the whole pages between the two
/// breaks and a lower one unmaps them.
pub open spec fn brk_spec(top: usize, addr: usize, heap_base: usize, heap_max: usize) -> BrkDecision {
    if !brk_accepts(addr, heap_base, heap_max) {
        BrkDecision::Report(top)
    } else if addr > top {
        let s = page_ceil(top as int);
        let e = page_ceil(addr as int);
        BrkDecision::Move {
            change: if e > s {
                Some(RegionChange::MapPages { start: s as usize, len: (e - s) as usize })
            } else {
                None
            },
            new_top: addr,
        }
    } else if addr < top {
        let s = page_ceil(addr as int);
        let e = page_ceil(top as int);
        BrkDecision::Move {
            change: if e > s {
                Some(RegionChange::UnmapPages { start: s as usize, len: (e - s) as usize })
            } else {
                None
            },
            new_top: addr,
        }
    } else {
        BrkDecision::Move { change: None, new_top: addr }
    }
}

/// The inputs on which `brk` does not overflow: the heap's end fits where
/// it is compared with the request, and where the break moves both breaks
/// can be rounded up to a page.
pub open spec fn brk_defined(top: usize, addr: usize, heap_base: usize, heap_max: usize) -> bool {
    &&& (addr != 0 && addr >= heap_base) ==> heap_base + heap_max <= usize::MAX
    &&& (brk_accepts(addr, heap_base, heap_max) && addr != top) ==> {
        &&& top + 4096 <= usize::MAX
        &&& addr + 4096 <= usize::MAX
    }
}

/// Decides a `brk` call; see `brk_spec`.
pub fn brk_decide(top: usize, addr: usize, heap_base: usize, heap_max: usize) -> (d: BrkDecision)
    requires
        brk_defined(top, addr, heap_base, heap_max),
    ensures
        d == brk_spec(top, addr, heap_base, heap_max),
{
    if addr == 0 {
        return BrkDecision::Report(top);
    }
    if addr < heap_base || addr > heap_base + heap_max {
        return BrkDecision::Report(top);
    }
    let old_heap_top = top;
    let new_heap_top = addr;
    let mut change: Option<RegionChange> = None;
    if new_heap_top > old_heap_top {
        let start = (old_heap_top + PAGE_SIZE - 1) & !(PAGE_SIZE - 1);
        let end = (new_heap_top + PAGE_SIZE - 1) & !(PAGE_SIZE - 1);
        assert(start == page_ceil(old_heap_top as int)) by {
            let x = (old_heap_top + 4095) as usize;
            assert(x & !0xfffusize == x - x % 4096) by (bit_vector);
        }
        assert(end == page_ceil(new_heap_top as int)) by {
            let x = (new_heap_top + 4095) as usize;
            assert(x & !0xfffusize == x - x % 4096) by (bit_vector);
        }
        if end > start {
            change = Some(RegionChange::MapPages { start, len: end - start });
        }
    } else if new_heap_top < old_heap_top {
        let start = (new_heap_top + PAGE_SIZE - 1) & !(PAGE_SIZE - 1);
        let end = (old_heap_top + PAGE_SIZE - 1) & !(PAGE_SIZE - 1);
        assert(start == page_ceil(new_heap_top as int)) by {
            let x = (new_heap_top + 4095) as usize;
            assert(x & !0xfffusize == x - x % 4096) by (bit_vector);
        }
        assert(end == page_ceil(old_heap_top as int)) by {
            let x = (old_heap_top + 4095) as usize;
            assert(x & !0xfffusize == x - x % 4096) by (bit_vector);
        }
        if end > start {
            change = Some(RegionChange::UnmapPages { start, len: end - start });
        }
    }
    BrkDecision::Move { change, new_top: new_heap_top }
}

/// The outcome of a `brk` call whose change to the mappings succeeded or
/// failed: the new break and the value returned.  A failed change leaves the
/// break where it was and returns it.
pub open spec fn brk_outcome_spec(top: usize, d: BrkDecision, change_ok: bool) -> (usize, isize) {
    match d {
        BrkDecision::Report(v) => (top, v as isize),
        BrkDecision::Move { change, new_top } => {
            if change is Some && !change_ok {
                (top, top as isize)
            } else {
                (new_top, new_top as isize)
            }
        },
    }
}

/// Applies a `brk` decision; see `brk_outcome_spec`.  `change_ok` is whether
/// mapping or unmapping succeeded, and is ignored where there was none.
pub fn brk_outcome(top: usize, d: BrkDecision, change_ok: bool) -> (r: (usize, isize))
    ensures
        r == brk_outcome_spec(top, d, change_ok),
{
    match d {
        BrkDecision::Report(v) => (top, v as isize),
        BrkDecision::Move { change, new_top } => {
            if change.is_some() && !change_ok {
                (top, top as isize)
            } else {
                (new_top, new_top as isize)
            }
        },
    }
}

/// What an anonymous `mmap` does: map `len` bytes at `start` with `perm`,
/// first unmapping whatever is there when `fixed`, and move the kernel's
/// placement cursor to `new_mmap_base` where it chose the address.
#[derive(Clone, Copy, Debug, PartialEq, Eq, Structural)]
pub struct MmapPlan {
    pub start: usize,
    pub len: usize,
    pub perm: MapPerm,
    pub fixed: bool,
    pub new_mmap_base: Option<usize>,
}

/// The mapping permissions that `prot` asks for.
pub open spec fn prot_perm(prot: usize) -> MapPerm {
    MapPerm {
        read: prot & PROT_READ != 0,
        write: prot & PROT_WRITE != 0,
        execute: prot & PROT_EXEC != 0,
        user: true,
    }
}

/// The `mmap` decision: an empty length fails with `EINVAL` and a mapping
/// that is not anonymous with `ENOSYS`; otherwise the length is rounded up
/// to whole pages and placed at the page below `addr`, or, for a zero
/// `addr`, at the page above the cursor, which then moves past it.
pub open spec fn mmap_spec(addr: usize, length: usize, prot: usize, flags: usize, mmap_base: usize) -> Result<
    MmapPlan,
    Errno,
> {
    if length == 0 {
        Err(Errno::EINVAL)
    } else if flags & MAP_ANONYMOUS == 0 {
        Err(Errno::ENOSYS)
    } else {
        let len = page_ceil(length as int);
        let fixed = flags & MAP_FIXED != 0;
        if addr == 0 {
            let start = page_ceil(mmap_base as int);
            Ok(
                MmapPlan {
                    start: start as usize,
                    len: len as usize,
                    perm: prot_perm(prot),
                    fixed,
                    new_mmap_base: Some((start + len) as usize),
                },
            )
        } else {
            Ok(
                MmapPlan {
                    start: page_floor(addr as int) as usize,
                    len: len as usize,
                    perm: prot_perm(prot),
                    fixed,
                    new_mmap_base: None,
                },
            )
        }
    }
}

/// The inputs on which `mmap` does not overflow: the length and, where the
/// kernel places the mapping, the cursor and the mapping's end can be
/// rounded up within a `usize`.
pub open spec fn mmap_defined(addr: usize, length: usize, flags: usize, mmap_base: usize) -> bool {
    (length != 0 && flags & MAP_ANONYMOUS != 0) ==> {
        &&& length + 4096 <= usize::MAX
        &&& addr == 0 ==> {
            &&& mmap_base + 4096 <= usize::MAX
            &&& page_ceil(mmap_base as int) + page_ceil(length as int) <= usize::MAX
        }
    }
}

/// Decides an `mmap` call; see `mmap_spec`.
pub fn mmap_decide(addr: usize, length: usize, prot: usize, flags: usize, mmap_base: usize) -> (r: Result<
    MmapPlan,
    Errno,
>)
    requires
        mmap_defined(addr, length, flags, mmap_base),
    ensures
        r == mmap_spec(addr, length, prot, flags, mmap_base),
{
    if length == 0 {
        return Err(Errno::EINVAL);
    }
    if (flags & MAP_ANONYMOUS) == 0 {
        return Err(Errno::ENOSYS);
    }
    let perm = MapPerm {
        read: (prot & PROT_READ) != 0,
        write: (prot & PROT_WRITE) != 0,
        execute: (prot & PROT_EXEC) != 0,
        user: true,
    };
    let aligned_length = (length + PAGE_SIZE - 1) & !(PAGE_SIZE - 1);
    assert(aligned_length == page_ceil(length as int)) by {
        let x = (length + 4095) as usize;
        assert(x & !0xfffusize == x - x % 4096) by (bit_vector);
    }
    let fixed = (flags & MAP_FIXED) != 0;
    if addr == 0 {
        let start = (mmap_base + PAGE_SIZE - 1) & !(PAGE_SIZE - 1);
        assert(start == page_ceil(mmap_base as int)) by {
            let x = (mmap_base + 4095) as usize;
            assert(x & !0xfffusize == x - x % 4096) by (bit_vector);
        }
        Ok(MmapPlan { start, len: aligned_length, perm, fixed, new_mmap_base: Some(start + aligned_length) })
    } else {
        let start = addr & !(PAGE_SIZE - 1);
        assert(start == page_floor(addr as int)) by {
            assert(addr & !0xfffusize == addr - addr % 4096) by (bit_vector);
        }
        Ok(MmapPlan { start, len: aligned_length, perm, fixed, new_mmap_base: None })
    }
}

/// What `mmap` returns once the mapping was tried: its address, or
/// `-ENOMEM` where mapping failed.
pub open spec fn mmap_result_spec(plan: MmapPlan, map_ok: bool) -> isize {
    if map_ok {
        plan.start as isize
    } else {
        -errno_number(Errno::ENOMEM) as isize
    }
}

/// See `mmap_result_spec`.
pub fn mmap_result(plan: &MmapPlan, map_ok: bool) -> (r: isize)
    ensures
        r == mmap_result_spec(*plan, map_ok),
        map_ok ==> r == plan.start as isize,
        !map_ok ==> r == -errno_number(Errno::ENOMEM),
{
    if map_ok {
        plan.start as isize
    } else {
        neg_errno(Errno::ENOMEM)
    }
}

/// The `munmap` decision: an empty length fails with `EINVAL`; otherwise
/// the pages from the page below `addr`, the length rounded up to whole
/// pages.
pub open spec fn munmap_spec(addr: usize, length: usize) -> Result<(usize, usize), Errno> {
    if length == 0 {
        Err(Errno::EINVAL)
    } else {
        Ok((page_floor(addr as int) as usize, page_ceil(length as int) as usize))
    }
}

/// Decides a `munmap` call; see `munmap_spec`.
pub fn munmap_decide(addr: usize, length: usize) -> (r: Result<(usize, usize), Errno>)
    requires
        length != 0 ==> length + 4096 <= usize::MAX,
    ensures
        r == munmap_spec(addr, length),
{
    if length == 0 {
        return Err(Errno::EINVAL);
    }
    let aligned_addr = addr & !(PAGE_SIZE - 1);
    let aligned_length = (length + PAGE_SIZE - 1) & !(PAGE_SIZE - 1);
    assert(aligned_addr == page_floor(addr as int)) by {
        assert(addr & !0xfffusize == addr - addr % 4096) by (bit_vector);
    }
    assert(aligned_length == page_ceil(length as int)) by {
        let x = (length + 4095) as usize;
        assert(x & !0xfffusize == x - x % 4096) by (bit_vector);
    }
    Ok((aligned_addr, aligned_length))
}

/// What `munmap` returns once unmapping was tried: 0, or `-EINVAL` where it
/// failed.
pub fn munmap_result(unmap_ok: bool) -> (r: isize)
    ensures
        unmap_ok ==> r == 0,
        !unmap_ok ==> r == -errno_number(Errno::EINVAL),
{
    if unmap_ok {
        0
    } else {
        neg_errno(Errno::EINVAL)
    }
}

/// Asking for break 0 reports the current break and changes nothing.
pub proof fn law_brk_zero_reports(top: usize, heap_base: usize, heap_max: usize)
    ensures
        brk_spec(top, 0, heap_base, heap_max) == BrkDecision::Report(top),
        brk_outcome_spec(top, brk_spec(top, 0, heap_base, heap_max), true) == (top, top as isize),
{
}

/// Once the break has moved, asking for break 0 reports the new break; a
/// move whose mapping change fails leaves the break where it was.
pub proof fn law_brk_move_then_query(
    top: usize,
    addr: usize,
    heap_base: usize,
    heap_max: usize,
    change_ok: bool,
)
    requires
        brk_accepts(addr, heap_base, heap_max),
    ensures
        ({
            let (t, r) = brk_outcome_spec(top, brk_spec(top, addr, heap_base, heap_max), change_ok);
            let moved = brk_spec(top, addr, heap_base, heap_max)->change is None || change_ok;
            &&& moved ==> t == addr && r == addr as isize
            &&& !moved ==> t == top && r == top as isize
            &&& brk_spec(t, 0, heap_base, heap_max) == BrkDecision::Report(t)
        }),
{
}

/// A `brk` that moves the break maps or unmaps exactly the whole pages
/// between the two breaks: growing from `top` to `addr` maps from the first
/// page boundary at or above `top` to the first at or above `addr`, so that
/// every page the new heap reaches into is mapped and nothing past it;
/// shrinking unmaps the same range with the breaks swapped.  Where no page
/// boundary lies between them nothing changes.  The break becomes `addr`.
pub proof fn law_brk_pages_between_breaks(top: usize, addr: usize, heap_base: usize, heap_max: usize)
    requires
        brk_defined(top, addr, heap_base, heap_max),
        brk_accepts(addr, heap_base, heap_max),
    ensures
        match brk_spec(top, addr, heap_base, heap_max) {
            BrkDecision::Report(_) => false,
            BrkDecision::Move { change, new_top } => {
                &&& new_top == addr
                &&& addr > top ==> match change {
                    Some(RegionChange::MapPages { start, len }) => {
                        &&& start % 4096 == 0
                        &&& top <= start < top + 4096
                        &&& (start + len) % 4096 == 0
                        &&& addr <= start + len < addr + 4096
                        &&& len > 0
                    },
                    Some(RegionChange::UnmapPages { .. }) => false,
                    None => (top + 4095) / 4096 == (addr + 4095) / 4096,
                }
                &&& addr < top ==> match change {
                    Some(RegionChange::UnmapPages { start, len }) => {
                        &&& start % 4096 == 0
                        &&& addr <= start < addr + 4096
                        &&& (start + len) % 4096 == 0
                        &&& top <= start + len < top + 4096
                        &&& len > 0
                    },
                    Some(RegionChange::MapPages { .. }) => false,
                    None => (top + 4095) / 4096 == (addr + 4095) / 4096,
                }
                &&& addr == top ==> change is None
            },
        },
{
    crate::page::lemma_page_rounding(top as int);
    crate::page::lemma_page_rounding(addr as int);
    assert(page_ceil(top as int) == (top + 4095) / 4096 * 4096);
    assert(page_ceil(addr as int) == (addr + 4095) / 4096 * 4096);
}

/// An anonymous mapping has exactly the permissions that `prot` asks for,
/// is always a user mapping, and replaces what is there exactly when
/// `MAP_FIXED` is given.
pub proof fn law_mmap_perm_is_prot(addr: usize, length: usize, prot: usize, flags: usize, mmap_base: usize)
    ensures
        mmap_spec(addr, length, prot, flags, mmap_base) matches Ok(p) ==> {
            &&& p.perm.read == (prot & 1 != 0)
            &&& p.perm.write == (prot & 2 != 0)
            &&& p.perm.execute == (prot & 4 != 0)
            &&& p.perm.user
            &&& p.fixed == (flags & 0x10 != 0)
        },
        mmap_spec(addr, length, prot, flags, mmap_base) is Ok <==> (length != 0 && flags & 0x20 != 0),
{
}

/// `munmap` of a non-empty range unmaps from the page that holds `addr`,
/// for the requested length rounded up to whole pages: never less than
/// asked, and less than a page more; an empty range fails with `EINVAL`.
pub proof fn law_munmap_range(addr: usize, length: usize)
    requires
        length + 4096 <= usize::MAX,
    ensures
        length == 0 <==> munmap_spec(addr, length) == Err::<(usize, usize), Errno>(Errno::EINVAL),
        munmap_spec(addr, length) matches Ok((start, len)) ==> {
            &&& start % 4096 == 0
            &&& start <= addr < start + 4096
            &&& len % 4096 == 0
            &&& length <= len < length + 4096
        },
{
    crate::page::lemma_page_rounding(addr as int);
    crate::page::lemma_page_rounding(length as int);
}

/// Every `brk` call returns the break it leaves behind; asking for break 0
/// afterwards returns that same value, and asking for that break again
/// maps or unmaps nothing and changes nothing.
pub proof fn law_brk_returns_new_break(
    top: usize,
    addr: usize,
    heap_base: usize,
    heap_max: usize,
    change_ok: bool,
    later_ok: bool,
)
    ensures
        ({
            let (t, r) = brk_outcome_spec(top, brk_spec(top, addr, heap_base, heap_max), change_ok);
            &&& r == t as isize
            &&& brk_outcome_spec(t, brk_spec(t, 0, heap_base, heap_max), later_ok) == (t, r)
            &&& brk_outcome_spec(t, brk_spec(t, t, heap_base, heap_max), later_ok) == (t, r)
            &&& match brk_spec(t, t, heap_base, heap_max) {
                BrkDecision::Report(v) => v == t,
                BrkDecision::Move { change, new_top } => change is None && new_top == t,
            }
        }),
{
}

/// The break always stays within the heap's limits when it starts there.
pub proof fn law_brk_stays_in_heap(top: usize, addr: usize, heap_base: usize, heap_max: usize, ok: bool)
    requires
        heap_base <= top <= heap_base + heap_max,
    ensures
        heap_base <= brk_outcome_spec(top, brk_spec(top, addr, heap_base, heap_max), ok).0 <= heap_base
            + heap_max,
{
}

/// Growing the break and then shrinking it back unmaps exactly the pages
/// that growing mapped.
pub proof fn law_brk_shrink_undoes_grow(t: usize, a: usize, heap_base: usize, heap_max: usize)
    requires
        brk_accepts(t, heap_base, heap_max),
        brk_accepts(a, heap_base, heap_max),
        t < a,
    ensures
        match (brk_spec(t, a, heap_base, heap_max), brk_spec(a, t, heap_base, heap_max)) {
            (BrkDecision::Move { change: c1, new_top: n1 }, BrkDecision::Move { change: c2, new_top: n2 }) => {
                &&& n1 == a
                &&& n2 == t
                &&& match (c1, c2) {
                    (None, None) => true,
                    (
                        Some(RegionChange::MapPages { start: s1, len: l1 }),
                        Some(RegionChange::UnmapPages { start: s2, len: l2 }),
                    ) => s1 == s2 && l1 == l2,
                    _ => false,
                }
            },
            _ => false,
        },
{
}

/// An anonymous mapping covers whole pages: it starts on a page boundary,
/// is the requested length rounded up to pages, and starts at the page of
/// the requested address, or at or above the cursor where the kernel picks
/// the address.
pub proof fn law_mmap_region(addr: usize, length: usize, prot: usize, flags: usize, mmap_base: usize)
    requires
        mmap_defined(addr, length, flags, mmap_base),
        mmap_spec(addr, length, prot, flags, mmap_base) is Ok,
    ensures
        ({
            let p = mmap_spec(addr, length, prot, flags, mmap_base)->Ok_0;
            &&& p.start % 4096 == 0
            &&& p.len % 4096 == 0
            &&& length <= p.len < length + 4096
            &&& addr != 0 ==> p.start <= addr < p.start + 4096 && p.new_mmap_base is None
            &&& addr == 0 ==> mmap_base <= p.start && p.new_mmap_base == Some(
                (p.start + p.len) as usize,
            )
        }),
{
    crate::page::lemma_page_rounding(length as int);
    crate::page::lemma_page_rounding(addr as int);
    crate::page::lemma_page_rounding(mmap_base as int);
}

/// What an `mmap` call returns and where it leaves the placement cursor,
/// given whether mapping succeeded: the error, or the mapping's address, or
/// `-ENOMEM`; the cursor moves where the kernel picked the address, whether
/// or not mapping then succeeded.
pub open spec fn mmap_outcome_spec(
    addr: usize,
    length: usize,
    prot: usize,
    flags: usize,
    mmap_base: usize,
    map_ok: bool,
) -> (isize, usize) {
    match mmap_spec(addr, length, prot, flags, mmap_base) {
        Err(e) => (-errno_number(e) as isize, mmap_base),
        Ok(p) => (
            mmap_result_spec(p, map_ok),
            match p.new_mmap_base {
                Some(b) => b,
                None => mmap_base,
            },
        ),
    }
}

/// A `usize` whose cast to `isize` is not negative keeps its value.
proof fn lemma_nonneg_cast(x: usize)
    ensures
        (x as isize) >= 0 ==> (x as isize) as int == x as int,
{
    assert((x as isize) >= 0 ==> ((x as isize) as usize) == x) by (bit_vector);
}

/// Two `mmap` calls in a row that let the kernel pick the address, with
/// nothing else moving the cursor between them, and that both succeed,
/// return page-aligned addresses, and the second lies at or past the end of
/// the first mapping (its length rounded up to pages): the regions do not
/// overlap.
pub proof fn law_mmap_results_disjoint(
    l1: usize,
    l2: usize,
    prot1: usize,
    prot2: usize,
    flags1: usize,
    flags2: usize,
    mmap_base: usize,
    ok1: bool,
    ok2: bool,
)
    requires
        mmap_defined(0, l1, flags1, mmap_base),
        mmap_defined(0, l2, flags2, mmap_outcome_spec(0, l1, prot1, flags1, mmap_base, ok1).1),
    ensures
        ({
            let (r1, b1) = mmap_outcome_spec(0, l1, prot1, flags1, mmap_base, ok1);
            let (r2, b2) = mmap_outcome_spec(0, l2, prot2, flags2, b1, ok2);
            r1 >= 0 && r2 >= 0 ==> {
                &&& r1 % 4096 == 0
                &&& r2 % 4096 == 0
                &&& r2 >= r1 + page_ceil(l1 as int)
            }
        }),
{
    let (r1, b1) = mmap_outcome_spec(0, l1, prot1, flags1, mmap_base, ok1);
    let (r2, b2) = mmap_outcome_spec(0, l2, prot2, flags2, b1, ok2);
    if r1 >= 0 && r2 >= 0 {
        let p1 = mmap_spec(0, l1, prot1, flags1, mmap_base)->Ok_0;
        let p2 = mmap_spec(0, l2, prot2, flags2, b1)->Ok_0;
        lemma_nonneg_cast(p1.start);
        lemma_nonneg_cast(p2.start);
        crate::page::lemma_page_rounding(mmap_base as int);
        crate::page::lemma_page_rounding(l1 as int);
        crate::page::lemma_page_rounding((p1.start + p1.len) as int);
    }
}

/// Two anonymous mappings in a row whose addresses the kernel picks do not
/// overlap: the second starts at or after the end of the first.
pub proof fn law_mmap_successive_disjoint(
    l1: usize,
    l2: usize,
    prot: usize,
    flags: usize,
    mmap_base: usize,
)
    requires
        mmap_defined(0, l1, flags, mmap_base),
        mmap_spec(0, l1, prot, flags, mmap_base) is Ok,
        mmap_defined(0, l2, flags, mmap_spec(0, l1, prot, flags, mmap_base)->Ok_0.new_mmap_base->Some_0),
        mmap_spec(0, l2, prot, flags, mmap_spec(0, l1, prot, flags, mmap_base)->Ok_0.new_mmap_base->Some_0) is Ok,
    ensures
        ({
            let p1 = mmap_spec(0, l1, prot, flags, mmap_base)->Ok_0;
            let p2 = mmap_spec(0, l2, prot, flags, p1.new_mmap_base->Some_0)->Ok_0;
            p1.start + p1.len <= p2.start
        }),
{
    let p1 = mmap_spec(0, l1, prot, flags, mmap_base)->Ok_0;
    crate::page::lemma_page_rounding(mmap_base as int);
    crate::page::lemma_page_rounding(l1 as int);
    crate::page::lemma_page_rounding((p1.start + p1.len) as int);
}

} // verus!
