//! What the loader reads of an ELF image, and the calls into `xmas_elf` and
//! `kernel_elf_parser` that read it.
//!
//! Both crates read the image's header and program headers in place and
//! assert that each structure they read lies at an address aligned for it.
//! So the parsers are handed an `ElfImage`: a copy of the image kept in
//! 64-bit words, whose first byte is aligned for every structure the crates
//! read.  Where a structure lies inside the image is a fact about its
//! contents: the program-header table's offset and entry size, which the
//! contracts require to be aligned.
//!
//! The contracts read multi-byte fields as little-endian numbers, the byte
//! order of the machines this kernel runs on, in which the crates read them.
use vstd::prelude::*;
use zerocopy::IntoBytes;

verus! {

/// An ELF image copied into 64-bit words, so that its first byte lies at an
/// address aligned for a 64-bit word.  Word `k` holds bytes `8k..8k+8` of
/// the image as a little-endian number (fewer in the last word).
pub struct ElfImage {
    words: Vec<u64>,
    len: usize,
    bytes: Ghost<Seq<u8>>,
}

/// The number of the image's bytes that word `k` holds.
pub open spec fn word_width(len: int, k: int) -> nat {
    if len - 8 * k >= 8 {
        8
    } else {
        (len - 8 * k) as nat
    }
}

impl ElfImage {
    #[verifier::type_invariant]
    closed spec fn wf(&self) -> bool {
        &&& self.bytes@.len() == self.len
        &&& 8 * self.words@.len() - 8 < self.len <= 8 * self.words@.len() || (self.len == 0
            && self.words@.len() == 0)
        &&& forall|k: int|
            0 <= k < self.words@.len() ==> #[trigger] self.words@[k] == le_uint(
                self.bytes@,
                8 * k,
                word_width(self.len as int, k),
            )
    }

    /// Copies `data` into words.
    pub fn new(data: &[u8]) -> (r: ElfImage)
        ensures
            r@ == data@,
    {
        let n = data.len();
        let mut words: Vec<u64> = Vec::new();
        let mut k: usize = 0;
        while k < n
            invariant
                n == data@.len(),
                k <= n,
                k == n || k == 8 * words@.len(),
                k == n ==> 8 * words@.len() - 8 < n <= 8 * words@.len() || (n == 0 && words@.len() == 0),
                forall|j: int|
                    0 <= j < words@.len() ==> #[trigger] words@[j] == le_uint(
                        data@,
                        8 * j,
                        word_width(n as int, j),
                    ),
            decreases n - k,
        {
            let m: usize = if n - k < 8 {
                n - k
            } else {
                8
            };
            let w = crate::aux::read_le(data, k, m);
            let ghost j = words@.len() as int;
            words.push(w);
            assert(words@[j] == le_uint(data@, 8 * j, word_width(n as int, j)));
            k = k + m;
        }
        ElfImage { words, len: n, bytes: Ghost(data@) }
    }

    /// The image's length in bytes.
    pub fn len(&self) -> (n: usize)
        ensures
            n == self@.len(),
    {
        proof {
            use_type_invariant(self);
        }
        self.len
    }
}

impl View for ElfImage {
    type V = Seq<u8>;

    closed spec fn view(&self) -> Seq<u8> {
        self.bytes@
    }
}

/// `zerocopy::IntoBytes::as_bytes` on the image's words, cut to its length:
/// the words' memory read as bytes, which on a little-endian machine are the
/// image's bytes in order.  The slice starts where the words start, at an
/// address aligned for a 64-bit word.
#[verifier::external_body]
pub(crate) fn image_bytes(img: &ElfImage) -> (r: &[u8])
    ensures
        r@ == img@,
{
    &img.words.as_bytes()[..img.len]
}

/// The object-file type of an image.
#[derive(Clone, Copy, Debug, PartialEq, Eq, Structural)]
pub enum ElfKind {
    Executable,
    SharedObject,
    Other,
}

/// The machine an image is built for: RISC-V, a machine number that
/// `xmas_elf` does not name, or one of the other machines it names.
#[derive(Clone, Copy, Debug, PartialEq, Eq, Structural)]
pub enum ElfMachine {
    RiscV,
    Unnamed(u16),
    Named,
}

/// The fields of an image's file header that the loader reads.
#[derive(Clone, Copy, Debug, PartialEq, Eq, Structural)]
pub struct ElfHeaderInfo {
    pub class64: bool,
    pub kind: ElfKind,
    pub machine: ElfMachine,
    pub entry: u64,
    pub ph_offset: u64,
    pub ph_entry_size: u16,
    pub ph_count: u16,
}

/// The type of a program header, as far as the loader cares.
#[derive(Clone, Copy, Debug, PartialEq, Eq, Structural)]
pub enum SegmentKind {
    Load,
    Interp,
    Other,
}

/// One program header.
#[derive(Clone, Copy, Debug, PartialEq, Eq, Structural)]
pub struct ProgramSegment {
    pub kind: SegmentKind,
    pub offset: u64,
    pub vaddr: u64,
    pub file_size: u64,
    pub mem_size: u64,
    pub readable: bool,
    pub writable: bool,
    pub executable: bool,
}

/// The type of an auxiliary-vector entry, as far as this kernel produces
/// them; `Other` carries the number of any other type.
#[derive(Clone, Copy, Debug, PartialEq, Eq, Structural)]
pub enum AuxKind {
    Null,
    Phdr,
    Phent,
    Phnum,
    Pagesz,
    Base,
    Entry,
    Other(usize),
}

/// One auxiliary-vector entry.
#[derive(Clone, Copy, Debug, PartialEq, Eq, Structural)]
pub struct AuxPair {
    pub kind: AuxKind,
    pub value: usize,
}

/// The size of one program header of the image's class.
pub open spec fn ph_struct_size(class64: bool) -> int {
    if class64 {
        56
    } else {
        32
    }
}

/// The alignment of one program header of the image's class.
pub open spec fn ph_align(class64: bool) -> int {
    if class64 {
        8
    } else {
        4
    }
}

/// `n` program headers read at `start`, `start + ent`, ... lie at offsets
/// aligned for the image's class.
pub open spec fn ph_reads_aligned(start: int, ent: int, n: int, class64: bool) -> bool {
    &&& n >= 1 ==> start % ph_align(class64) == 0
    &&& n >= 2 ==> ent % ph_align(class64) == 0
}

/// `xmas_elf` reads the program headers one by one at `ph_offset + i *
/// ph_entry_size` while `i < ph_count`, provided the offset and the entry
/// size are not zero; this says that every one of those reads lies inside
/// the image, is large enough for a program header and is aligned for one.
pub open spec fn ph_table_fits(h: ElfHeaderInfo, len: int) -> bool {
    ||| h.ph_offset == 0
    ||| h.ph_entry_size == 0
    ||| h.ph_count == 0
    ||| {
        &&& h.ph_offset + h.ph_count * h.ph_entry_size <= len
        &&& h.ph_entry_size >= ph_struct_size(h.class64)
        &&& ph_reads_aligned(h.ph_offset as int, h.ph_entry_size as int, h.ph_count as int, h.class64)
    }
}

/// How many program headers `xmas_elf` yields for a header whose table fits.
pub open spec fn segment_count(h: ElfHeaderInfo) -> int {
    if h.ph_offset > 0 && h.ph_entry_size > 0 {
        h.ph_count as int
    } else {
        0
    }
}

/// The little-endian number in the `n` bytes of `s` at `off`.
pub open spec fn le_uint(s: Seq<u8>, off: int, n: nat) -> int
    decreases n,
{
    if n == 0 {
        0
    } else {
        s[off] as int + 256 * le_uint(s, off + 1, (n - 1) as nat)
    }
}

/// What `parse_header` accepts: the magic number, a 32-bit or 64-bit
/// class, and a file long enough for that class's file header.
pub open spec fn elf_header_parses(d: Seq<u8>) -> bool {
    &&& d.len() >= 16
    &&& d[0] == 0x7f && d[1] == 0x45 && d[2] == 0x4c && d[3] == 0x46
    &&& d[4] == 1 || d[4] == 2
    &&& d.len() >= if d[4] == 2 {
        64int
    } else {
        52int
    }
}

/// The machine numbers that `xmas_elf` names other than RISC-V.
pub open spec fn named_machine(m: int) -> bool {
    m == 0x00 || m == 0x02 || m == 0x03 || m == 0x08 || m == 0x14 || m == 0x28 || m == 0x2A || m
        == 0x32 || m == 0x3E || m == 0xB7 || m == 0xF7
}

/// The file header's fields, as the image's bytes give them.
pub open spec fn header_fields_match(d: Seq<u8>, h: ElfHeaderInfo) -> bool {
    let c64 = d[4] == 2;
    let e_type = le_uint(d, 16, 2);
    let machine = le_uint(d, 18, 2);
    &&& h.class64 == c64
    &&& h.kind == if e_type == 2 {
        ElfKind::Executable
    } else if e_type == 3 {
        ElfKind::SharedObject
    } else {
        ElfKind::Other
    }
    &&& h.machine == if machine == 0xF3 {
        ElfMachine::RiscV
    } else if named_machine(machine) {
        ElfMachine::Named
    } else {
        ElfMachine::Unnamed(machine as u16)
    }
    &&& h.entry == if c64 {
        le_uint(d, 24, 8)
    } else {
        le_uint(d, 24, 4)
    }
    &&& h.ph_offset == if c64 {
        le_uint(d, 32, 8)
    } else {
        le_uint(d, 28, 4)
    }
    &&& h.ph_entry_size == if c64 {
        le_uint(d, 54, 2)
    } else {
        le_uint(d, 42, 2)
    }
    &&& h.ph_count == if c64 {
        le_uint(d, 56, 2)
    } else {
        le_uint(d, 44, 2)
    }
}

/// Program header `i`'s fields, as the image's bytes give them.
pub open spec fn segment_fields_match(d: Seq<u8>, h: ElfHeaderInfo, i: int, s: ProgramSegment) -> bool {
    let b = h.ph_offset + i * h.ph_entry_size;
    let c64 = h.class64;
    let t = le_uint(d, b, 4);
    let flags = (if c64 {
        le_uint(d, b + 4, 4)
    } else {
        le_uint(d, b + 24, 4)
    }) as u32;
    &&& s.kind == if t == 1 {
        SegmentKind::Load
    } else if t == 3 {
        SegmentKind::Interp
    } else {
        SegmentKind::Other
    }
    &&& s.offset == if c64 {
        le_uint(d, b + 8, 8)
    } else {
        le_uint(d, b + 4, 4)
    }
    &&& s.vaddr == if c64 {
        le_uint(d, b + 16, 8)
    } else {
        le_uint(d, b + 8, 4)
    }
    &&& s.file_size == if c64 {
        le_uint(d, b + 32, 8)
    } else {
        le_uint(d, b + 16, 4)
    }
    &&& s.mem_size == if c64 {
        le_uint(d, b + 40, 8)
    } else {
        le_uint(d, b + 20, 4)
    }
    &&& s.readable == (flags & 4 == 4)
    &&& s.writable == (flags & 2 == 2)
    &&& s.executable == (flags & 1 == 1)
}

/// The file header that `xmas_elf::header::parse_header` reads from an
/// image, or `None` where it rejects the image.
pub uninterp spec fn elf_header_info(data: Seq<u8>) -> Option<ElfHeaderInfo>;

/// The program headers that `xmas_elf::ElfFile::program_iter` yields.
pub uninterp spec fn elf_segments(data: Seq<u8>) -> Seq<ProgramSegment>;

/// `xmas_elf::header::parse_header`, on the image's aligned bytes: checks
/// the magic number, the class and the length of the image and reads the
/// file header, whose fields the contract states as little-endian numbers
/// (the byte order of the machines this kernel runs on, in which the crate
/// reads them).
#[verifier::external_body]
pub(crate) fn parse_elf_header(img: &ElfImage) -> (r: Option<ElfHeaderInfo>)
    ensures
        r == elf_header_info(img@),
        r is Some <==> elf_header_parses(img@),
        r matches Some(h) ==> header_fields_match(img@, h),
{
    let h = xmas_elf::header::parse_header(image_bytes(img)).ok()?;
    let kind = match h.pt2.type_().as_type() {
        xmas_elf::header::Type::Executable => ElfKind::Executable,
        xmas_elf::header::Type::SharedObject => ElfKind::SharedObject,
        _ => ElfKind::Other,
    };
    let machine = match h.pt2.machine().as_machine() {
        xmas_elf::header::Machine::RISC_V => ElfMachine::RiscV,
        xmas_elf::header::Machine::Other(v) => ElfMachine::Unnamed(v),
        _ => ElfMachine::Named,
    };
    let class64 = matches!(h.pt2, xmas_elf::header::HeaderPt2::Header64(_));
    let p = h.pt2;
    Some(ElfHeaderInfo { class64, kind, machine, entry: p.entry_point(), ph_offset: p.ph_offset(), ph_entry_size: p.ph_entry_size(), ph_count: p.ph_count() })
}

/// `xmas_elf::ElfFile::program_iter`, on the aligned bytes of an image whose
/// header parses: the program headers in table order, `segment_count` of
/// them, with their fields as the image's bytes give them (little-endian).  It slices the
/// image at each header and reads it in place, so the table must fit in the
/// image and its entries must lie at aligned offsets.
#[verifier::external_body]
pub(crate) fn parse_elf_segments(img: &ElfImage) -> (r: Vec<ProgramSegment>)
    requires
        elf_header_info(img@) is Some,
        ph_table_fits(elf_header_info(img@)->Some_0, img@.len() as int),
    ensures
        r@ == elf_segments(img@),
        r@.len() == segment_count(elf_header_info(img@)->Some_0),
        forall|i: int|
            0 <= i < r@.len() ==> segment_fields_match(
                img@,
                elf_header_info(img@)->Some_0,
                i,
                #[trigger] r@[i],
            ),
{
    let Ok(elf) = xmas_elf::ElfFile::new(image_bytes(img)) else { return Vec::new() };
    elf.program_iter().map(|ph| ProgramSegment {
        kind: match ph.get_type() { Ok(xmas_elf::program::Type::Load) => SegmentKind::Load, Ok(xmas_elf::program::Type::Interp) => SegmentKind::Interp, _ => SegmentKind::Other },
        offset: ph.offset(), vaddr: ph.virtual_addr(), file_size: ph.file_size(), mem_size: ph.mem_size(),
        readable: ph.flags().is_read(), writable: ph.flags().is_write(), executable: ph.flags().is_execute(),
    }).collect()
}

} // verus!
