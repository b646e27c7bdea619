//! The decisions of the ELF loader: which machine an image must be built
//! for, where a position-independent image goes, how each segment is mapped,
//! copied and zero-filled, which interpreter an image asks for, and where
//! the initial user stack begins.
use vstd::prelude::*;
use crate::error::KernelError;
use crate::elf::{elf_header_info, image_bytes, ElfImage, ph_reads_aligned, ph_struct_size, AuxKind, AuxPair, ElfMachine, ProgramSegment, SegmentKind};
use crate::aux::{aux_vector, aux_vector_defined, aux_vector_spec, elf_parser_new, headers_build, headers_builder_new, ph_range};
use crate::page::{align_down_4k, align_up_4k, page_ceil, page_floor, MapPerm};
use vstd::utf8::*;
use vstd::string::*;

verus! {

/// Where position-independent executables are placed.
pub const USER_DYN_BASE: usize = 0x20_0000;

/// The machine number of LoongArch, which `xmas_elf` does not name.
pub const ELF_MACHINE_LOONGARCH: u16 = 0x102;

/// The architecture the kernel runs on.
#[derive(Clone, Copy, Debug, PartialEq, Eq, Structural)]
pub enum TargetArch {
    RiscV64,
    LoongArch64,
    Other,
}

/// Where a loaded program starts and where its stack pointer begins.
#[derive(Clone, Copy, Debug, PartialEq, Eq, Structural)]
pub struct UserAppLoadInfo {
    pub entry: usize,
    pub user_sp: usize,
}

/// An image runs on `arch` when it is built for that machine.
pub open spec fn machine_matches(m: ElfMachine, arch: TargetArch) -> bool {
    ||| m == ElfMachine::RiscV && arch == TargetArch::RiscV64
    ||| m == ElfMachine::Unnamed(ELF_MACHINE_LOONGARCH) && arch == TargetArch::LoongArch64
}

/// Accepts an image built for the machine the kernel runs on and refuses any
/// other with `InvalidExecutable`.
pub fn validate_machine(machine: ElfMachine, arch: TargetArch) -> (r: Result<(), KernelError>)
    ensures
        r is Ok <==> machine_matches(machine, arch),
        r matches Err(e) ==> e == KernelError::InvalidExecutable,
{
    let ok = match machine {
        ElfMachine::RiscV => arch == TargetArch::RiscV64,
        ElfMachine::Unnamed(v) => v == ELF_MACHINE_LOONGARCH && arch == TargetArch::LoongArch64,
        ElfMachine::Named => false,
    };
    if ok {
        Ok(())
    } else {
        Err(KernelError::InvalidExecutable)
    }
}

/// A segment that takes part in placing an image: a loadable one that
/// occupies memory.
pub open spec fn occupies_memory(s: ProgramSegment) -> bool {
    s.kind == SegmentKind::Load && s.mem_size != 0
}

/// The lowest virtual address among the segments that occupy memory.
pub open spec fn min_load_vaddr(segs: Seq<ProgramSegment>) -> Option<usize>
    decreases segs.len(),
{
    if segs.len() == 0 {
        None
    } else {
        let rest = min_load_vaddr(segs.drop_last());
        let last = segs.last();
        if occupies_memory(last) {
            let v = last.vaddr as usize;
            match rest {
                Some(m) => Some(if v < m { v } else { m }),
                None => Some(v),
            }
        } else {
            rest
        }
    }
}

/// The offset that moves an image so that its lowest page lands on
/// `desired_base`.
pub open spec fn load_bias_spec(segs: Seq<ProgramSegment>, desired_base: usize) -> Result<
    usize,
    KernelError,
> {
    match min_load_vaddr(segs) {
        None => Err(KernelError::InvalidExecutable),
        Some(m) => {
            if desired_base >= page_floor(m as int) {
                Ok((desired_base - page_floor(m as int)) as usize)
            } else {
                Err(KernelError::InvalidExecutable)
            }
        },
    }
}

/// `min_load_vaddr` is the least address of the segments that occupy
/// memory, and it exists exactly when one of them does.
pub proof fn law_min_load_vaddr_is_least(segs: Seq<ProgramSegment>)
    ensures
        min_load_vaddr(segs) is None <==> forall|i: int|
            0 <= i < segs.len() ==> !occupies_memory(#[trigger] segs[i]),
        min_load_vaddr(segs) matches Some(m) ==> {
            &&& exists|i: int|
                0 <= i < segs.len() && occupies_memory(#[trigger] segs[i]) && segs[i].vaddr as usize
                    == m
            &&& forall|i: int|
                0 <= i < segs.len() && occupies_memory(#[trigger] segs[i]) ==> m <= segs[i].vaddr
                    as usize
        },
    decreases segs.len(),
{
    if segs.len() > 0 {
        let init = segs.drop_last();
        law_min_load_vaddr_is_least(init);
        assert forall|i: int| 0 <= i < init.len() implies init[i] == segs[i] by {}
        let last_i = segs.len() - 1;
        assert(segs[last_i] == segs.last());
        if min_load_vaddr(init) is None {
            if occupies_memory(segs.last()) {
                assert(occupies_memory(segs[last_i]));
            }
        } else {
            let m0 = min_load_vaddr(init)->Some_0;
            let w = choose|i: int|
                0 <= i < init.len() && occupies_memory(#[trigger] init[i]) && init[i].vaddr as usize
                    == m0;
            assert(occupies_memory(segs[w]));
            if occupies_memory(segs.last()) {
                assert(occupies_memory(segs[last_i]));
            }
        }
    }
}

/// The offset by which a position-independent image is moved: the distance
/// from the page below its lowest segment to `desired_base`.  It fails with
/// `InvalidExecutable` where no segment occupies memory or that page lies
/// above `desired_base`.
pub fn compute_load_bias(segs: &[ProgramSegment], desired_base: usize) -> (r: Result<
    usize,
    KernelError,
>)
    ensures
        r == load_bias_spec(segs@, desired_base),
{
    let mut min_vaddr: Option<usize> = None;
    let mut i: usize = 0;
    while i < segs.len()
        invariant
            i <= segs@.len(),
            min_vaddr == min_load_vaddr(segs@.take(i as int)),
        decreases segs@.len() - i,
    {
        let ph = segs[i];
        assert(segs@.take(i as int + 1).drop_last() =~= segs@.take(i as int));
        assert(segs@.take(i as int + 1).last() == segs@[i as int]);
        if ph.kind == SegmentKind::Load && ph.mem_size != 0 {
            let vaddr = ph.vaddr as usize;
            min_vaddr = Some(
                match min_vaddr {
                    Some(old) => if vaddr < old {
                        vaddr
                    } else {
                        old
                    },
                    None => vaddr,
                },
            );
        }
        i = i + 1;
    }
    assert(segs@.take(segs@.len() as int) =~= segs@);
    let min_vaddr = match min_vaddr {
        Some(m) => m,
        None => return Err(KernelError::InvalidExecutable),
    };
    let min_page = align_down_4k(min_vaddr);
    match desired_base.checked_sub(min_page) {
        Some(b) => Ok(b),
        None => Err(KernelError::InvalidExecutable),
    }
}

/// The permissions of a segment's mapping: user memory with the segment's
/// read, write and execute flags.
pub open spec fn segment_perm(s: ProgramSegment) -> MapPerm {
    MapPerm { read: s.readable, write: s.writable, execute: s.executable, user: true }
}

/// The mapping permissions of a segment.
pub fn segment_flags(ph: &ProgramSegment) -> (p: MapPerm)
    ensures
        p == segment_perm(*ph),
{
    let mut map_flags = MapPerm { read: false, write: false, execute: false, user: true };
    if ph.readable {
        map_flags.read = true;
    }
    if ph.writable {
        map_flags.write = true;
    }
    if ph.executable {
        map_flags.execute = true;
    }
    map_flags
}

/// How one loadable segment is brought into memory: map the pages
/// `[map_start, map_start + map_size)` with `perm`, copy `file_size` bytes
/// of the image from `file_offset` to `vaddr`, and fill `zero_size` bytes
/// at `zero_start` with zeros.
#[derive(Clone, Copy, Debug, PartialEq, Eq, Structural)]
pub struct SegmentLoad {
    pub map_start: usize,
    pub map_size: usize,
    pub perm: MapPerm,
    pub vaddr: usize,
    pub file_offset: usize,
    pub file_size: usize,
    pub zero_start: usize,
    pub zero_size: usize,
}

/// What loading segment `s` of an image of `data_len` bytes, moved by
/// `bias`, amounts to: nothing for a segment that is not loadable or
/// occupies no memory, an error for one that does not fit, and otherwise
/// its mapping, copy and zero fill.
pub open spec fn segment_plan_spec(s: ProgramSegment, data_len: int, bias: usize) -> Result<
    Option<SegmentLoad>,
    KernelError,
> {
    let off = s.offset as usize;
    let va0 = s.vaddr as usize;
    let fs = s.file_size as usize;
    let ms = s.mem_size as usize;
    if s.kind != SegmentKind::Load {
        Ok(None)
    } else if va0 + bias > usize::MAX {
        Err(KernelError::OutOfRange)
    } else if ms == 0 {
        Ok(None)
    } else if fs > ms {
        Err(KernelError::InvalidExecutable)
    } else if off + fs > usize::MAX || off + fs > data_len {
        Err(KernelError::InvalidExecutable)
    } else if va0 + bias + ms + 4095 > usize::MAX {
        Err(KernelError::OutOfRange)
    } else {
        let va = va0 + bias;
        Ok(
            Some(
                SegmentLoad {
                    map_start: page_floor(va) as usize,
                    map_size: (page_ceil(va + ms) - page_floor(va)) as usize,
                    perm: segment_perm(s),
                    vaddr: va as usize,
                    file_offset: off,
                    file_size: fs,
                    zero_start: (va + fs) as usize,
                    zero_size: (ms - fs) as usize,
                },
            ),
        )
    }
}

/// A segment's mapping is page aligned and holds both the bytes copied from
/// the image and the zero-filled tail, which together are the segment's
/// memory; the copied bytes lie inside the image.
pub open spec fn segment_load_sound(l: SegmentLoad, data_len: int) -> bool {
    &&& l.map_start % 4096 == 0
    &&& l.map_size % 4096 == 0
    &&& l.map_start <= l.vaddr
    &&& l.zero_start == l.vaddr + l.file_size
    &&& l.zero_start + l.zero_size <= l.map_start + l.map_size
    &&& l.map_start + l.map_size <= usize::MAX
    &&& l.file_offset + l.file_size <= data_len
}

/// Every planned segment load is sound.
pub proof fn law_segment_load_sound(s: ProgramSegment, data_len: int, bias: usize)
    ensures
        segment_plan_spec(s, data_len, bias) matches Ok(Some(l)) ==> segment_load_sound(l, data_len),
{
    if segment_plan_spec(s, data_len, bias) is Ok {
        let va = (s.vaddr as usize) + bias;
        let ms = s.mem_size as usize;
        if s.kind == SegmentKind::Load && ms != 0 {
            crate::page::lemma_page_rounding(va);
            crate::page::lemma_page_rounding(va + ms);
        }
    }
}

/// How one program header is loaded; see `segment_plan_spec`.
pub fn plan_segment(ph: &ProgramSegment, data_len: usize, bias: usize) -> (r: Result<
    Option<SegmentLoad>,
    KernelError,
>)
    ensures
        r == segment_plan_spec(*ph, data_len as int, bias),
{
    if ph.kind != SegmentKind::Load {
        return Ok(None);
    }
    let p_offset = ph.offset as usize;
    let p_vaddr = match (ph.vaddr as usize).checked_add(bias) {
        Some(v) => v,
        None => return Err(KernelError::OutOfRange),
    };
    let p_filesz = ph.file_size as usize;
    let p_memsz = ph.mem_size as usize;
    if p_memsz == 0 {
        return Ok(None);
    }
    if p_filesz > p_memsz {
        return Err(KernelError::InvalidExecutable);
    }
    let seg_end = match p_offset.checked_add(p_filesz) {
        Some(e) => e,
        None => return Err(KernelError::InvalidExecutable),
    };
    if seg_end > data_len {
        return Err(KernelError::InvalidExecutable);
    }
    let seg_start_page = align_down_4k(p_vaddr);
    let seg_end = match p_vaddr.checked_add(p_memsz) {
        Some(e) => e,
        None => return Err(KernelError::OutOfRange),
    };
    let seg_end_page = match align_up_4k(seg_end) {
        Ok(e) => e,
        Err(e) => return Err(e),
    };
    proof {
        crate::page::lemma_page_rounding(p_vaddr as int);
        crate::page::lemma_page_rounding(seg_end as int);
    }
    let map_size = seg_end_page - seg_start_page;
    Ok(
        Some(
            SegmentLoad {
                map_start: seg_start_page,
                map_size,
                perm: segment_flags(ph),
                vaddr: p_vaddr,
                file_offset: p_offset,
                file_size: p_filesz,
                zero_start: p_vaddr + p_filesz,
                zero_size: p_memsz - p_filesz,
            },
        ),
    )
}

/// What loading the segments of an image amounts to: the loads of its
/// segments in table order up to the first segment that fails, and that
/// segment's error where there is one.  The kernel maps each segment as it
/// goes, so the loads before a failing segment are carried out before the
/// error is reported.
pub open spec fn segments_plan_spec(segs: Seq<ProgramSegment>, data_len: int, bias: usize) -> (
    Seq<SegmentLoad>,
    Option<KernelError>,
)
    decreases segs.len(),
{
    if segs.len() == 0 {
        (Seq::empty(), None)
    } else {
        let (v, err) = segments_plan_spec(segs.drop_last(), data_len, bias);
        if err is Some {
            (v, err)
        } else {
            match segment_plan_spec(segs.last(), data_len, bias) {
                Err(e) => (v, Some(e)),
                Ok(None) => (v, None),
                Ok(Some(l)) => (v.push(l), None),
            }
        }
    }
}

/// Plans the loading of the segments of an image; see `segments_plan_spec`.
pub fn plan_segments(segs: &[ProgramSegment], data_len: usize, bias: usize) -> (r: (
    Vec<SegmentLoad>,
    Option<KernelError>,
))
    ensures
        (r.0@, r.1) == segments_plan_spec(segs@, data_len as int, bias),
{
    let mut loads: Vec<SegmentLoad> = Vec::new();
    let mut i: usize = 0;
    while i < segs.len()
        invariant
            i <= segs@.len(),
            segments_plan_spec(segs@.take(i as int), data_len as int, bias) == (loads@, None::<KernelError>),
        decreases segs@.len() - i,
    {
        assert(segs@.take(i as int + 1).drop_last() =~= segs@.take(i as int));
        assert(segs@.take(i as int + 1).last() == segs@[i as int]);
        match plan_segment(&segs[i], data_len, bias) {
            Err(e) => {
                assert(segments_plan_spec(segs@.take(i as int + 1), data_len as int, bias) == (
                    loads@,
                    Some(e),
                ));
                proof {
                    lemma_plan_error_persists(segs@, i as int + 1, data_len as int, bias);
                }
                return (loads, Some(e));
            },
            Ok(None) => {},
            Ok(Some(l)) => {
                loads.push(l);
            },
        }
        i = i + 1;
    }
    assert(segs@.take(segs@.len() as int) =~= segs@);
    (loads, None)
}

/// Once a prefix of the segments fails, the whole table gives the same
/// loads and the same error.
proof fn lemma_plan_error_persists(segs: Seq<ProgramSegment>, k: int, data_len: int, bias: usize)
    requires
        0 <= k <= segs.len(),
        segments_plan_spec(segs.take(k), data_len, bias).1 is Some,
    ensures
        segments_plan_spec(segs, data_len, bias) == segments_plan_spec(segs.take(k), data_len, bias),
    decreases segs.len() - k,
{
    if k < segs.len() {
        assert(segs.take(k + 1).drop_last() =~= segs.take(k));
        lemma_plan_error_persists(segs, k + 1, data_len, bias);
    } else {
        assert(segs.take(k) =~= segs);
    }
}

/// The zero-filled tail of a segment, cut into pieces of at most one page:
/// piece `k` starts `4096 * k` bytes after `start`.
pub open spec fn zero_chunks_spec(start: int, len: int) -> Seq<(usize, usize)> {
    Seq::new(
        ((len + 4095) / 4096) as nat,
        |k: int|
            (
                (start + 4096 * k) as usize,
                (if len - 4096 * k < 4096 {
                    len - 4096 * k
                } else {
                    4096
                }) as usize,
            ),
    )
}

/// Cuts the `len` bytes at `start` into the page-sized pieces in which the
/// loader writes zeros.
pub fn zero_fill_chunks(start: usize, len: usize) -> (r: Vec<(usize, usize)>)
    requires
        start + len <= usize::MAX,
    ensures
        r@ == zero_chunks_spec(start as int, len as int),
{
    let mut chunks: Vec<(usize, usize)> = Vec::new();
    let mut left = len;
    let mut cur = start;
    while left > 0
        invariant
            left <= len,
            start + len <= usize::MAX,
            cur == start + (len - left),
            forall|k: int|
                0 <= k < chunks@.len() ==> #[trigger] chunks@[k] == zero_chunks_spec(
                    start as int,
                    len as int,
                )[k],
            left > 0 ==> len - left == 4096 * chunks@.len() && chunks@.len() < (len + 4095) / 4096,
            left == 0 ==> chunks@.len() == (len + 4095) / 4096,
        decreases left,
    {
        let n = if left < PAGE_CHUNK {
            left
        } else {
            PAGE_CHUNK
        };
        let ghost k = chunks@.len() as int;
        assert(4096 * k == len - left);
        assert(left < 4096 ==> (len + 4095) / 4096 == k + 1) by (nonlinear_arith)
            requires
                4096 * k == len - left,
                0 < left,
                left <= len;
        assert(left >= 4096 && left - 4096 > 0 ==> k + 1 < (len + 4095) / 4096) by (nonlinear_arith)
            requires
                4096 * k == len - left,
                0 < left,
                left <= len;
        assert(left == 4096 ==> (len + 4095) / 4096 == k + 1) by (nonlinear_arith)
            requires
                4096 * k == len - left,
                0 < left,
                left <= len;
        chunks.push((cur, n));
        cur = cur + n;
        left = left - n;
    }
    assert(chunks@ =~= zero_chunks_spec(start as int, len as int));
    chunks
}

/// The size of one zero-fill piece.
pub const PAGE_CHUNK: usize = 4096;

/// `core::str::from_utf8`: the bytes as a string slice where they are valid
/// UTF-8, and nothing otherwise.
#[verifier::external_body]
fn str_from_utf8(v: &[u8]) -> (r: Option<&str>)
    ensures
        r is Some <==> valid_utf8(v@),
        r matches Some(s) ==> s.spec_bytes() == v@,
{
    core::str::from_utf8(v).ok()
}

/// `i` is the first interpreter segment of `segs`.
pub open spec fn is_first_interp(segs: Seq<ProgramSegment>, i: int) -> bool {
    &&& 0 <= i < segs.len()
    &&& segs[i].kind == SegmentKind::Interp
    &&& forall|k: int| 0 <= k < i ==> (#[trigger] segs[k]).kind != SegmentKind::Interp
}

/// `j` is the position of the first zero byte of `raw`, or its length where
/// it has none.
pub open spec fn is_first_zero(raw: Seq<u8>, j: int) -> bool {
    &&& 0 <= j <= raw.len()
    &&& forall|k: int| 0 <= k < j ==> #[trigger] raw[k] != 0
    &&& j < raw.len() ==> raw[j] == 0
}

/// The interpreter path that an image names: the text of its first
/// interpreter segment up to the first zero byte.  It fails with
/// `InvalidExecutable` where that segment is empty, lies outside the image,
/// or its text is not valid UTF-8 or is empty.
pub open spec fn interp_path_spec(segs: Seq<ProgramSegment>, data: Seq<u8>) -> Result<
    Option<Seq<char>>,
    KernelError,
> {
    if forall|k: int| 0 <= k < segs.len() ==> (#[trigger] segs[k]).kind != SegmentKind::Interp {
        Ok(None)
    } else {
        let i = choose|i: int| is_first_interp(segs, i);
        let off = segs[i].offset as usize;
        let size = segs[i].file_size as usize;
        if size == 0 || off + size > usize::MAX || off + size > data.len() {
            Err(KernelError::InvalidExecutable)
        } else {
            let raw = data.subrange(off as int, off + size);
            let bytes = raw.take(choose|j: int| is_first_zero(raw, j));
            if !valid_utf8(bytes) || decode_utf8(bytes).len() == 0 {
                Err(KernelError::InvalidExecutable)
            } else {
                Ok(Some(decode_utf8(bytes)))
            }
        }
    }
}

/// The interpreter an image asks for, if any; see `interp_path_spec`.
pub fn read_interp_path(segs: &[ProgramSegment], elf_data: &[u8]) -> (r: Result<
    Option<String>,
    KernelError,
>)
    ensures
        match r {
            Ok(Some(p)) => interp_path_spec(segs@, elf_data@) == Ok::<
                Option<Seq<char>>,
                KernelError,
            >(Some(p@)),
            Ok(None) => interp_path_spec(segs@, elf_data@) == Ok::<
                Option<Seq<char>>,
                KernelError,
            >(None),
            Err(e) => interp_path_spec(segs@, elf_data@) == Err::<Option<Seq<char>>, KernelError>(e),
        },
{
    let mut i: usize = 0;
    while i < segs.len()
        invariant
            i <= segs@.len(),
            forall|k: int| 0 <= k < i ==> (#[trigger] segs@[k]).kind != SegmentKind::Interp,
        ensures
            i <= segs@.len(),
            forall|k: int| 0 <= k < i ==> (#[trigger] segs@[k]).kind != SegmentKind::Interp,
            i < segs@.len() ==> segs@[i as int].kind == SegmentKind::Interp,
        decreases segs@.len() - i,
    {
        if segs[i].kind == SegmentKind::Interp {
            break;
        }
        i = i + 1;
    }
    if i == segs.len() {
        return Ok(None);
    }
    let ph = segs[i];
    assert(is_first_interp(segs@, i as int));
    proof {
        let c = choose|c: int| is_first_interp(segs@, c);
        if c < i {
            assert(segs@[c].kind != SegmentKind::Interp);
        } else if c > i {
            assert(segs@[i as int].kind != SegmentKind::Interp);
        }
    }
    let off = ph.offset as usize;
    let size = ph.file_size as usize;
    if size == 0 {
        return Err(KernelError::InvalidExecutable);
    }
    let end = match off.checked_add(size) {
        Some(e) => e,
        None => return Err(KernelError::InvalidExecutable),
    };
    if end > elf_data.len() {
        return Err(KernelError::InvalidExecutable);
    }
    let raw = &elf_data[off..end];
    let mut nul: usize = 0;
    while nul < raw.len()
        invariant
            nul <= raw@.len(),
            forall|k: int| 0 <= k < nul ==> #[trigger] raw@[k] != 0,
        ensures
            nul <= raw@.len(),
            forall|k: int| 0 <= k < nul ==> #[trigger] raw@[k] != 0,
            nul < raw@.len() ==> raw@[nul as int] == 0,
        decreases raw@.len() - nul,
    {
        if raw[nul] == 0 {
            break;
        }
        nul = nul + 1;
    }
    assert(is_first_zero(raw@, nul as int));
    proof {
        let c = choose|c: int| is_first_zero(raw@, c);
        if c < nul {
            assert(raw@[c] == 0);
        } else if c > nul {
            assert(raw@[nul as int] == 0);
        }
    }
    let text = &raw[0..nul];
    assert(text@ =~= raw@.take(nul as int));
    let s = match str_from_utf8(text) {
        Some(s) => s,
        None => return Err(KernelError::InvalidExecutable),
    };
    proof {
        encode_utf8_decode_utf8(s@);
    }
    if s.is_empty() {
        return Err(KernelError::InvalidExecutable);
    }
    Ok(Some(s.to_owned()))
}

/// The bytes of the program-header table that `build_auxv` hands to the
/// parser: from the table's offset, `ph_count` entries long, where that
/// range lies inside the image.
pub open spec fn aux_table_range(data: Seq<u8>) -> Option<(int, int)> {
    let h = elf_header_info(data)->Some_0;
    let start = h.ph_offset as int;
    let end = h.ph_offset + h.ph_entry_size * h.ph_count;
    if start > usize::MAX || end > usize::MAX || end > data.len() || start > end {
        None
    } else {
        Some((start, end))
    }
}

/// The inputs on which `build_auxv` runs to the end without a panic in
/// `kernel_elf_parser`: the table's end fits in 64 bits, and where the table
/// lies inside the image its entries are large enough, lie at aligned
/// offsets, and the parser finds the table's address.
pub open spec fn build_auxv_defined(data: Seq<u8>, bias: usize) -> bool {
    elf_header_info(data) matches Some(h) ==> {
        &&& h.ph_offset + h.ph_entry_size * h.ph_count <= u64::MAX
        &&& aux_table_range(data) matches Some((start, end)) ==> {
            &&& h.ph_entry_size >= ph_struct_size(h.class64)
            &&& ph_reads_aligned(start, h.ph_entry_size as int, h.ph_count as int, h.class64)
            &&& aux_vector_defined(data, data.subrange(start, end), bias)
        }
    }
}

/// The auxiliary vector of the main program: `kernel_elf_parser`'s entries
/// for the image moved by `bias`, with the interpreter's base where there is
/// one, closed by a null entry.  It fails with `InvalidExecutable` where the
/// header does not parse or the program-header table does not lie inside
/// the image.
pub open spec fn build_auxv_spec(data: Seq<u8>, bias: usize, interp_base: Option<usize>) -> Result<
    Seq<AuxPair>,
    KernelError,
> {
    if elf_header_info(data) is None {
        Err(KernelError::InvalidExecutable)
    } else {
        match aux_table_range(data) {
            None => Err(KernelError::InvalidExecutable),
            Some((start, end)) => Ok(
                aux_vector_spec(data, data.subrange(start, end), bias, 4096, interp_base).push(
                    AuxPair { kind: AuxKind::Null, value: 0 },
                ),
            ),
        }
    }
}

/// The auxiliary vector of the main program; see `build_auxv_spec`.
pub fn build_auxv(main_elf_data: &ElfImage, main_bias: usize, interp_base: Option<usize>) -> (r: Result<
    Vec<AuxPair>,
    KernelError,
>)
    requires
        build_auxv_defined(main_elf_data@, main_bias),
    ensures
        match r {
            Ok(v) => build_auxv_spec(main_elf_data@, main_bias, interp_base) == Ok::<
                Seq<AuxPair>,
                KernelError,
            >(v@),
            Err(e) => build_auxv_spec(main_elf_data@, main_bias, interp_base) == Err::<
                Seq<AuxPair>,
                KernelError,
            >(e),
        },
{
    let hdr_builder = match headers_builder_new(main_elf_data) {
        Some(b) => b,
        None => return Err(KernelError::InvalidExecutable),
    };
    let (range_start, range_end) = ph_range(&hdr_builder);
    if range_start > usize::MAX as u64 || range_end > usize::MAX as u64 {
        return Err(KernelError::InvalidExecutable);
    }
    let start = range_start as usize;
    let end = range_end as usize;
    if end > main_elf_data.len() || start > end {
        return Err(KernelError::InvalidExecutable);
    }
    proof {
        let h = elf_header_info(main_elf_data@)->Some_0;
        assert((h.ph_entry_size * h.ph_count) / (h.ph_entry_size as int) == h.ph_count) by (nonlinear_arith)
            requires
                h.ph_entry_size > 0,
        ;
    }
    let headers = headers_build(hdr_builder, start, end);
    let parser = elf_parser_new(&headers, main_bias);
    let mut auxv = aux_vector(&parser, PAGE_SIZE_AUX, interp_base);
    auxv.push(AuxPair { kind: AuxKind::Null, value: 0 });
    Ok(auxv)
}

/// The page size that the auxiliary vector reports.
pub const PAGE_SIZE_AUX: usize = 4096;

/// Decides `build_auxv_defined`.
pub fn build_auxv_is_defined(data: &ElfImage, bias: usize) -> (b: bool)
    ensures
        b == build_auxv_defined(data@, bias),
{
    let h = match crate::elf::parse_elf_header(data) {
        Some(h) => h,
        None => return true,
    };
    assert(h.ph_entry_size * h.ph_count <= 65535 * 65535) by (nonlinear_arith)
        requires
            h.ph_entry_size <= 65535,
            h.ph_count <= 65535;
    let size: u128 = h.ph_entry_size as u128 * h.ph_count as u128;
    let end: u128 = h.ph_offset as u128 + size;
    if end > u64::MAX as u128 {
        return false;
    }
    if h.ph_offset as u128 > usize::MAX as u128 || end > usize::MAX as u128 || end > data.len() as u128 {
        return true;
    }
    let struct_size: u16 = if h.class64 {
        56
    } else {
        32
    };
    if h.ph_entry_size < struct_size {
        return false;
    }
    let align: u64 = if h.class64 {
        8
    } else {
        4
    };
    if h.ph_count >= 1 && h.ph_offset % align != 0 {
        return false;
    }
    if h.ph_count >= 2 && h.ph_entry_size as u64 % align != 0 {
        return false;
    }
    let start = h.ph_offset as usize;
    let end = end as usize;
    let bytes = image_bytes(data);
    crate::aux::aux_vector_is_defined(data, &bytes[start..end], bias)
}

/// The auxiliary vector of the main program holds, in this order: the
/// address of its program headers, their entry size and number, the page
/// size 4096, its entry point (moved by the bias where it is
/// position-independent), the interpreter's base where there is one, and a
/// closing null entry.
pub proof fn law_auxv_entries(data: Seq<u8>, bias: usize, interp_base: Option<usize>)
    ensures
        build_auxv_spec(data, bias, interp_base) matches Ok(v) ==> {
            let h = elf_header_info(data)->Some_0;
            let base = if h.kind == crate::elf::ElfKind::SharedObject {
                bias as int
            } else {
                0
            };
            &&& v[0].kind == AuxKind::Phdr
            &&& v[1] == AuxPair { kind: AuxKind::Phent, value: h.ph_entry_size as usize }
            &&& v[2] == AuxPair { kind: AuxKind::Phnum, value: h.ph_count as usize }
            &&& v[3] == AuxPair { kind: AuxKind::Pagesz, value: 4096 }
            &&& v[4] == AuxPair { kind: AuxKind::Entry, value: (h.entry + base) as usize }
            &&& match interp_base {
                Some(b) => v.len() == 7 && v[5] == AuxPair { kind: AuxKind::Base, value: b } && v[6]
                    == AuxPair { kind: AuxKind::Null, value: 0 },
                None => v.len() == 6 && v[5] == AuxPair { kind: AuxKind::Null, value: 0 },
            }
        },
        build_auxv_spec(data, bias, interp_base) is Err <==> (elf_header_info(data) is None
            || aux_table_range(data) is None),
{
}

/// The interpreter path an image names is the text of its first
/// interpreter segment up to the first zero byte (or the segment's end):
/// not empty, without a zero byte, and followed in the segment by a zero
/// byte where it ends before the segment does.  An image without an
/// interpreter segment names none.
pub proof fn law_interp_path_is_text_before_nul(segs: Seq<ProgramSegment>, data: Seq<u8>)
    ensures
        (forall|k: int| 0 <= k < segs.len() ==> (#[trigger] segs[k]).kind != SegmentKind::Interp)
            ==> interp_path_spec(segs, data) == Ok::<Option<Seq<char>>, KernelError>(None),
        interp_path_spec(segs, data) matches Ok(Some(p)) ==> exists|i: int|
            #[trigger] is_first_interp(segs, i) && {
                let off = segs[i].offset as usize as int;
                let raw = data.subrange(off, off + (segs[i].file_size as usize));
                let b = encode_utf8(p);
                &&& p.len() > 0
                &&& b.len() <= raw.len()
                &&& b == raw.take(b.len() as int)
                &&& forall|k: int| 0 <= k < b.len() ==> #[trigger] b[k] != 0
                &&& b.len() < raw.len() ==> raw[b.len() as int] == 0
            },
{
    if let Ok(Some(p)) = interp_path_spec(segs, data) {
        let w = choose|k: int| 0 <= k < segs.len() && (#[trigger] segs[k]).kind == SegmentKind::Interp;
        lemma_first_interp_exists(segs, w);
        let i = choose|i: int| is_first_interp(segs, i);
        let off = segs[i].offset as usize;
        let size = segs[i].file_size as usize;
        let raw = data.subrange(off as int, off + size);
        lemma_first_zero_exists(raw, raw.len() as int);
        let j = choose|j: int| is_first_zero(raw, j);
        let bytes = raw.take(j);
        decode_utf8_encode_utf8(bytes);
        assert(encode_utf8(p) == bytes);
        assert(is_first_interp(segs, i));
    }
}

/// Where some segment is an interpreter segment, a first one exists.
proof fn lemma_first_interp_exists(segs: Seq<ProgramSegment>, w: int)
    requires
        0 <= w < segs.len(),
        segs[w].kind == SegmentKind::Interp,
    ensures
        exists|i: int| is_first_interp(segs, i),
    decreases w,
{
    if exists|k: int| 0 <= k < w && (#[trigger] segs[k]).kind == SegmentKind::Interp {
        let k = choose|k: int| 0 <= k < w && (#[trigger] segs[k]).kind == SegmentKind::Interp;
        lemma_first_interp_exists(segs, k);
    } else {
        assert(is_first_interp(segs, w));
    }
}

/// Every byte sequence has a first zero byte, or its length where it has
/// none.
proof fn lemma_first_zero_exists(raw: Seq<u8>, w: int)
    requires
        0 <= w <= raw.len(),
        w < raw.len() ==> raw[w] == 0,
    ensures
        exists|j: int| is_first_zero(raw, j),
    decreases w,
{
    if exists|k: int| 0 <= k < w && #[trigger] raw[k] == 0 {
        let k = choose|k: int| 0 <= k < w && #[trigger] raw[k] == 0;
        lemma_first_zero_exists(raw, k);
    } else {
        assert(is_first_zero(raw, w));
    }
}

/// Moving a position-independent image by its bias puts the page of its
/// lowest segment exactly at the desired base.
pub proof fn law_bias_places_lowest_page(segs: Seq<ProgramSegment>, desired_base: usize)
    requires
        load_bias_spec(segs, desired_base) is Ok,
    ensures
        min_load_vaddr(segs) is Some,
        page_floor(min_load_vaddr(segs)->Some_0 as int) + load_bias_spec(segs, desired_base)->Ok_0
            == desired_base,
{
}

/// The zero-fill pieces cover exactly the tail, in order and without gaps:
/// each but the last is a whole page, and the last is not empty.
pub proof fn law_zero_chunks_cover(start: int, len: int)
    requires
        start >= 0,
        len >= 0,
        start + len <= usize::MAX,
    ensures
        ({
            let c = zero_chunks_spec(start, len);
            &&& c.len() * 4096 >= len
            &&& forall|k: int| 0 <= k < c.len() ==> 0 < (#[trigger] c[k]).1 <= 4096
            &&& forall|k: int| 0 <= k < c.len() ==> (#[trigger] c[k]).0 == start + 4096 * k
            &&& forall|k: int| 0 <= k < c.len() - 1 ==> (#[trigger] c[k]).1 == 4096
            &&& (len == 0 <==> c.len() == 0)
            &&& c.len() > 0 ==> c[c.len() - 1].0 + c[c.len() - 1].1 == start + len
        }),
{
    let n = (len + 4095) / 4096;
    let c = zero_chunks_spec(start, len);
    assert(n * 4096 >= len) by (nonlinear_arith)
        requires
            n == (len + 4095) / 4096,
            len >= 0;
    assert forall|k: int| 0 <= k < c.len() implies 0 < (#[trigger] c[k]).1 <= 4096 && c[k].0 == start
        + 4096 * k by {
        assert(4096 * k < len) by (nonlinear_arith)
            requires
                n == (len + 4095) / 4096,
                0 <= k < n,
                len >= 0;
    }
    assert(len == 0 <==> n == 0) by (nonlinear_arith)
        requires
            n == (len + 4095) / 4096,
            len >= 0;
    assert forall|k: int| 0 <= k < c.len() - 1 implies (#[trigger] c[k]).1 == 4096 by {
        assert(len - 4096 * k >= 4096) by (nonlinear_arith)
            requires
                n == (len + 4095) / 4096,
                0 <= k < n - 1,
                len >= 0;
    }
    if n > 0 {
        assert(len - 4096 * (n - 1) <= 4096) by (nonlinear_arith)
            requires
                n == (len + 4095) / 4096,
                n > 0,
                len >= 0;
        assert(4096 * (n - 1) < len) by (nonlinear_arith)
            requires
                n == (len + 4095) / 4096,
                n > 0,
                len >= 0;
    }
}

/// A loadable segment that occupies memory is loaded at its address moved
/// by the bias: its file bytes `[offset, offset + file_size)` are copied
/// there, the rest of its memory up to `mem_size` is filled with zeros, and
/// the mapping is the least run of whole pages that holds that memory, with
/// the segment's permissions.  A segment that is not loadable, or occupies
/// no memory, loads nothing.  A loadable segment fails only where its moved
/// address or its end overflows (`OutOfRange`) or where its file bytes do
/// not fit in it or in the image (`InvalidExecutable`).
pub proof fn law_segment_load_matches_header(s: ProgramSegment, data_len: int, bias: usize)
    ensures
        s.kind != SegmentKind::Load ==> segment_plan_spec(s, data_len, bias) == Ok::<
            Option<SegmentLoad>,
            KernelError,
        >(None),
        segment_plan_spec(s, data_len, bias) matches Ok(Some(l)) ==> {
            let va = (s.vaddr as usize) + bias;
            let fs = s.file_size as usize;
            let ms = s.mem_size as usize;
            &&& s.kind == SegmentKind::Load && ms > 0
            &&& l.vaddr == va
            &&& l.file_offset == s.offset as usize && l.file_size == fs
            &&& l.file_offset + l.file_size <= data_len
            &&& l.zero_start == va + fs
            &&& l.zero_start + l.zero_size == va + ms
            &&& l.map_start % 4096 == 0
            &&& l.map_start <= va < l.map_start + 4096
            &&& (l.map_start + l.map_size) % 4096 == 0
            &&& va + ms <= l.map_start + l.map_size < va + ms + 4096
            &&& l.perm == MapPerm { read: s.readable, write: s.writable, execute: s.executable, user: true }
        },
        segment_plan_spec(s, data_len, bias) == Ok::<Option<SegmentLoad>, KernelError>(None) ==> s.kind
            != SegmentKind::Load || s.mem_size as usize == 0,
        segment_plan_spec(s, data_len, bias) matches Err(e) ==> {
            let va0 = s.vaddr as usize;
            let fs = s.file_size as usize;
            let ms = s.mem_size as usize;
            let off = s.offset as usize;
            &&& s.kind == SegmentKind::Load
            &&& e == KernelError::OutOfRange ==> va0 + bias > usize::MAX || va0 + bias + ms + 4095 > usize::MAX
            &&& e == KernelError::InvalidExecutable ==> fs > ms || off + fs > data_len || off + fs > usize::MAX
            &&& e == KernelError::OutOfRange || e == KernelError::InvalidExecutable
        },
        ({
            let va0 = s.vaddr as usize;
            let fs = s.file_size as usize;
            let ms = s.mem_size as usize;
            let off = s.offset as usize;
            (s.kind == SegmentKind::Load && ms > 0 && fs <= ms && off + fs <= data_len && off + fs
                <= usize::MAX && va0 + bias + ms + 4095 <= usize::MAX) ==> segment_plan_spec(
                s,
                data_len,
                bias,
            ) is Ok
        }),
{
    let va = (s.vaddr as usize) + bias;
    let ms = s.mem_size as usize;
    if va <= usize::MAX {
        crate::page::lemma_page_rounding(va);
        crate::page::lemma_page_rounding(va + ms);
    }
}

/// Every load that planning an image's segments asks for, including those
/// carried out before a failing segment, is sound: its copy and zero fill
/// lie inside the pages it maps, and the copied bytes lie inside the image.
pub proof fn law_segments_plan_sound(segs: Seq<ProgramSegment>, data_len: int, bias: usize)
    ensures
        forall|i: int|
            0 <= i < segments_plan_spec(segs, data_len, bias).0.len() ==> segment_load_sound(
                #[trigger] segments_plan_spec(segs, data_len, bias).0[i],
                data_len,
            ),
    decreases segs.len(),
{
    if segs.len() > 0 {
        law_segments_plan_sound(segs.drop_last(), data_len, bias);
        law_segment_load_sound(segs.last(), data_len, bias);
        let v = segments_plan_spec(segs.drop_last(), data_len, bias).0;
        let w = segments_plan_spec(segs, data_len, bias).0;
        assert forall|i: int| 0 <= i < w.len() implies segment_load_sound(#[trigger] w[i], data_len) by {
            if i < v.len() {
                assert(w[i] == v[i]);
            }
        }
    }
}

} // verus!
