//! Page arithmetic and the mapping permissions of user memory.
use vstd::prelude::*;

verus! {

/// The size of a small page.
pub const PAGE_SIZE_4K: usize = 0x1000;

/// `v` rounded down to a page boundary.
pub open spec fn page_floor(v: int) -> int {
    v - v % 4096
}

/// `v` rounded up to a page boundary.
pub open spec fn page_ceil(v: int) -> int {
    page_floor(v + 4095)
}

/// The permissions of a user mapping; the application turns them into the
/// page-table flags of the same names.
#[derive(Clone, Copy, Debug, PartialEq, Eq, Structural)]
pub struct MapPerm {
    pub read: bool,
    pub write: bool,
    pub execute: bool,
    pub user: bool,
}

/// Rounds `v` down to a multiple of the 4 KiB page size.
pub fn align_down_4k(v: usize) -> (r: usize)
    ensures
        r == page_floor(v as int),
{
    assert(v & !0xfffusize == v - v % 4096) by (bit_vector);
    v & !0xfffusize
}

/// Rounds `v` up to a multiple of the 4 KiB page size, or fails with
/// `OutOfRange` where that multiple does not fit in a `usize`.
pub fn align_up_4k(v: usize) -> (r: Result<usize, crate::error::KernelError>)
    ensures
        match r {
            Ok(x) => v + 4095 <= usize::MAX && x == page_ceil(v as int),
            Err(e) => v + 4095 > usize::MAX && e == crate::error::KernelError::OutOfRange,
        },
{
    match v.checked_add(0xfff) {
        Some(x) => {
            assert(x & !0xfffusize == x - x % 4096) by (bit_vector);
            Ok(x & !0xfffusize)
        },
        None => Err(crate::error::KernelError::OutOfRange),
    }
}

/// Rounding down gives a page boundary at or below `v`, less than a page
/// away; rounding up gives one at or above `v`, less than a page away.
pub proof fn lemma_page_rounding(v: int)
    requires
        v >= 0,
    ensures
        page_floor(v) % 4096 == 0,
        page_floor(v) <= v < page_floor(v) + 4096,
        page_ceil(v) % 4096 == 0,
        v <= page_ceil(v) < v + 4096,
        page_floor(v) >= 0,
{
}


} // verus!
