//! The calls into `kernel_elf_parser`: the auxiliary vector of a loaded
//! image and the initial user stack.
//!
//! The contracts read header fields from the image's bytes as little-endian
//! numbers, the byte order of the machines this kernel runs on, which the
//! crate reads its structures in.
//!
//! The crate's parser holds borrowed views of the image.  The structs here
//! pair each of them with the bytes it was made from; only the functions of
//! this module build them, so the bytes are always the ones the parser
//! reads.
use vstd::prelude::*;
use vstd::utf8::encode_utf8;
use kernel_elf_parser::{AuxEntry, AuxType};
use crate::elf::{elf_header_info, image_bytes, ElfImage, le_uint, ph_reads_aligned, ph_struct_size, AuxKind, AuxPair, ElfKind};

verus! {

#[verifier::external_type_specification]
#[verifier::external_body]
pub struct ExElfHeadersBuilder<'a>(kernel_elf_parser::ELFHeadersBuilder<'a>);

#[verifier::external_type_specification]
#[verifier::external_body]
pub struct ExElfHeaders<'a>(kernel_elf_parser::ELFHeaders<'a>);

#[verifier::external_type_specification]
#[verifier::external_body]
pub struct ExElfParser<'a>(kernel_elf_parser::ELFParser<'a>);

/// A file header read by `kernel_elf_parser`, with the image it came from.
pub struct HeadersBuilder<'a> {
    data: &'a [u8],
    inner: kernel_elf_parser::ELFHeadersBuilder<'a>,
}

/// A file header and program-header table read by `kernel_elf_parser`, with
/// the image and the table bytes they came from.
pub struct Headers<'a> {
    data: &'a [u8],
    ph: &'a [u8],
    inner: kernel_elf_parser::ELFHeaders<'a>,
}

/// `kernel_elf_parser`'s view of a loaded image, with the image, the table
/// bytes and the offset by which the image was moved.
pub struct AuxParser<'a> {
    data: &'a [u8],
    ph: &'a [u8],
    bias: usize,
    inner: kernel_elf_parser::ELFParser<'a>,
}

impl<'a> HeadersBuilder<'a> {
    pub closed spec fn data(&self) -> Seq<u8> {
        self.data@
    }
}

impl<'a> Headers<'a> {
    pub closed spec fn data(&self) -> Seq<u8> {
        self.data@
    }

    pub closed spec fn ph(&self) -> Seq<u8> {
        self.ph@
    }
}

impl<'a> AuxParser<'a> {
    pub closed spec fn data(&self) -> Seq<u8> {
        self.data@
    }

    pub closed spec fn ph(&self) -> Seq<u8> {
        self.ph@
    }

    pub closed spec fn bias(&self) -> usize {
        self.bias
    }
}

/// The `p_offset` field of program header `i` of a table with entries of
/// `ent` bytes.
pub open spec fn raw_ph_offset(ph: Seq<u8>, ent: int, class64: bool, i: int) -> int {
    if class64 {
        le_uint(ph, i * ent + 8, 8)
    } else {
        le_uint(ph, i * ent + 4, 4)
    }
}

/// The `p_vaddr` field of program header `i`.
pub open spec fn raw_ph_vaddr(ph: Seq<u8>, ent: int, class64: bool, i: int) -> int {
    if class64 {
        le_uint(ph, i * ent + 16, 8)
    } else {
        le_uint(ph, i * ent + 8, 4)
    }
}

/// The `p_filesz` field of program header `i`.
pub open spec fn raw_ph_filesz(ph: Seq<u8>, ent: int, class64: bool, i: int) -> int {
    if class64 {
        le_uint(ph, i * ent + 32, 8)
    } else {
        le_uint(ph, i * ent + 16, 4)
    }
}

/// Program header `i` covers the file offset `pos`.
pub open spec fn ph_covers(ph: Seq<u8>, ent: int, class64: bool, i: int, pos: int) -> bool {
    raw_ph_offset(ph, ent, class64, i) <= pos < raw_ph_offset(ph, ent, class64, i) + raw_ph_filesz(
        ph,
        ent,
        class64,
        i,
    )
}

/// Program header `k` is the first of the table that covers `pos`, and no
/// header up to it has an end beyond the 64-bit range.
pub open spec fn is_covering_header(ph: Seq<u8>, ent: int, class64: bool, pos: int, k: int) -> bool {
    &&& ent > 0
    &&& 0 <= k < (ph.len() as int) / ent
    &&& ph_covers(ph, ent, class64, k, pos)
    &&& forall|i: int| 0 <= i < k ==> !#[trigger] ph_covers(ph, ent, class64, i, pos)
    &&& forall|i: int|
        0 <= i <= k ==> #[trigger] raw_ph_offset(ph, ent, class64, i) + raw_ph_filesz(
            ph,
            ent,
            class64,
            i,
        ) <= u64::MAX
}

/// The base that `kernel_elf_parser` adds to addresses: the offset by which
/// the image was moved, for position-independent images only.
pub open spec fn parser_base(data: Seq<u8>, bias: usize) -> int {
    if elf_header_info(data)->Some_0.kind == ElfKind::SharedObject {
        bias as int
    } else {
        0
    }
}

/// The address of the program-header table in the loaded image.
pub open spec fn phdr_address(data: Seq<u8>, ph: Seq<u8>, bias: usize) -> int {
    let h = elf_header_info(data)->Some_0;
    let ent = h.ph_entry_size as int;
    let k = choose|k: int| is_covering_header(ph, ent, h.class64, h.ph_offset as int, k);
    h.ph_offset - raw_ph_offset(ph, ent, h.class64, k) + raw_ph_vaddr(ph, ent, h.class64, k)
        + parser_base(data, bias)
}

/// The inputs on which `ELFParser::aux_vector` returns: a program header
/// covers the table's offset, and the addresses it computes fit in a
/// `usize`.
pub open spec fn aux_vector_defined(data: Seq<u8>, ph: Seq<u8>, bias: usize) -> bool {
    &&& elf_header_info(data) is Some
    &&& {
        let h = elf_header_info(data)->Some_0;
        let ent = h.ph_entry_size as int;
        &&& h.ph_offset <= usize::MAX
        &&& exists|k: int| is_covering_header(ph, ent, h.class64, h.ph_offset as int, k)
        &&& phdr_address(data, ph, bias) <= usize::MAX
        &&& h.entry + parser_base(data, bias) <= usize::MAX
    }
}

/// The auxiliary vector that `ELFParser::aux_vector` yields: the address,
/// entry size and number of the program headers, the page size, the entry
/// point, and the interpreter's base where there is one.
pub open spec fn aux_vector_spec(
    data: Seq<u8>,
    ph: Seq<u8>,
    bias: usize,
    pagesz: usize,
    ldso_base: Option<usize>,
) -> Seq<AuxPair> {
    let h = elf_header_info(data)->Some_0;
    let v = seq![
        AuxPair { kind: AuxKind::Phdr, value: phdr_address(data, ph, bias) as usize },
        AuxPair { kind: AuxKind::Phent, value: h.ph_entry_size as usize },
        AuxPair { kind: AuxKind::Phnum, value: h.ph_count as usize },
        AuxPair { kind: AuxKind::Pagesz, value: pagesz },
        AuxPair { kind: AuxKind::Entry, value: (h.entry + parser_base(data, bias)) as usize },
    ];
    match ldso_base {
        Some(b) => v.push(AuxPair { kind: AuxKind::Base, value: b }),
        None => v,
    }
}

/// `ELFHeadersBuilder::new`, on the image's aligned bytes: reads the file
/// header with `xmas_elf`'s `parse_header`, so it succeeds exactly where
/// `parse_elf_header` does.
#[verifier::external_body]
pub(crate) fn headers_builder_new<'a>(img: &'a ElfImage) -> (r: Option<HeadersBuilder<'a>>)
    ensures
        r is Some <==> elf_header_info(img@) is Some,
        r matches Some(b) ==> b.data() == img@,
{
    let data = image_bytes(img);
    Some(HeadersBuilder { data, inner: kernel_elf_parser::ELFHeadersBuilder::new(data).ok()? })
}

/// `ELFHeadersBuilder::ph_range`: the table's offset and the offset just past
/// its `ph_count` entries; the sum is computed in 64 bits.
#[verifier::external_body]
pub(crate) fn ph_range(b: &HeadersBuilder) -> (r: (u64, u64))
    requires
        elf_header_info(b.data()) is Some,
        elf_header_info(b.data())->Some_0.ph_offset + elf_header_info(b.data())->Some_0.ph_entry_size
            * elf_header_info(b.data())->Some_0.ph_count <= u64::MAX,
    ensures
        r.0 == elf_header_info(b.data())->Some_0.ph_offset,
        r.1 == elf_header_info(b.data())->Some_0.ph_offset + elf_header_info(b.data())->Some_0.ph_entry_size
            * elf_header_info(b.data())->Some_0.ph_count,
{
    let r = b.inner.ph_range();
    (r.start, r.end)
}

/// `ELFHeadersBuilder::build`, on the bytes `start..end` of the image that
/// the builder read: cuts them into entries of the header's entry size and
/// reads each in place as a program header.  It always succeeds, but panics
/// where the entry size is smaller than a program header or where an entry
/// lies at an offset that is not aligned for one.
#[verifier::external_body]
pub(crate) fn headers_build<'a>(b: HeadersBuilder<'a>, start: usize, end: usize) -> (r: Headers<'a>)
    requires
        start <= end <= b.data().len(),
        elf_header_info(b.data()) is Some,
        elf_header_info(b.data())->Some_0.ph_entry_size >= ph_struct_size(
            elf_header_info(b.data())->Some_0.class64,
        ),
        ph_reads_aligned(
            start as int,
            elf_header_info(b.data())->Some_0.ph_entry_size as int,
            (end - start) / (elf_header_info(b.data())->Some_0.ph_entry_size as int),
            elf_header_info(b.data())->Some_0.class64,
        ),
    ensures
        r.data() == b.data(),
        r.ph() == b.data().subrange(start as int, end as int),
{
    let data = b.data;
    let ph = &data[start..end];
    Headers { data, ph, inner: b.inner.build(ph).unwrap() }
}

/// `ELFParser::new`: always succeeds.
#[verifier::external_body]
pub(crate) fn elf_parser_new<'a>(h: &'a Headers<'a>, bias: usize) -> (r: AuxParser<'a>)
    ensures
        r.data() == h.data(),
        r.ph() == h.ph(),
        r.bias() == bias,
{
    AuxParser { data: h.data, ph: h.ph, bias, inner: kernel_elf_parser::ELFParser::new(&h.inner, bias).unwrap() }
}

/// `ELFParser::aux_vector`, collected: see `aux_vector_spec`.  It panics
/// where no program header covers the table's offset, and overflows where an
/// address does not fit; `aux_vector_defined` rules both out.
#[verifier::external_body]
pub(crate) fn aux_vector(p: &AuxParser, pagesz: usize, ldso_base: Option<usize>) -> (r: Vec<AuxPair>)
    requires
        aux_vector_defined(p.data(), p.ph(), p.bias()),
    ensures
        r@ == aux_vector_spec(p.data(), p.ph(), p.bias(), pagesz, ldso_base),
{
    p.inner.aux_vector(pagesz, ldso_base).map(|e| AuxPair { value: e.value(), kind: match e.get_type() {
        AuxType::NULL => AuxKind::Null, AuxType::PHDR => AuxKind::Phdr, AuxType::PHENT => AuxKind::Phent,
        AuxType::PHNUM => AuxKind::Phnum, AuxType::PAGESZ => AuxKind::Pagesz, AuxType::BASE => AuxKind::Base,
        AuxType::ENTRY => AuxKind::Entry, t => AuxKind::Other(t as usize),
    } }).collect()
}

/// The number of bytes that the strings take on the stack, each with its
/// terminating zero.
pub open spec fn strings_size(ss: Seq<Seq<char>>) -> int
    decreases ss.len(),
{
    if ss.len() == 0 {
        0
    } else {
        strings_size(ss.drop_last()) + encode_utf8(ss.last()).len() + 1
    }
}

/// The size of a machine word, in bytes.
pub open spec fn word_size() -> int {
    (usize::BITS / 8) as int
}

/// The size of the initial stack that `app_stack_region` builds below `sp`
/// for an auxiliary vector of `n_aux` entries without random bytes or
/// program name: the random bytes, the strings, an end marker, padding to
/// 16 bytes, 8 more bytes of padding where the count of words that follow
/// is odd, the vector with the two entries it adds (two words each), an
/// end marker, the environment pointers, an end marker, the argument
/// pointers and the argument count (a word each).
pub open spec fn stack_region_len(args: Seq<Seq<char>>, envs: Seq<Seq<char>>, n_aux: int, sp: int) -> int {
    let w = word_size();
    let head = 16 + strings_size(envs) + strings_size(args) + 8;
    let pad = (sp - head) % 16;
    let odd = if (envs.len() + args.len() + 3) % 2 == 1 {
        8int
    } else {
        0int
    };
    head + pad + odd + 2 * w * n_aux + 4 * w + 8 + w * envs.len() + 8 + w * args.len() + w
}

/// The views of a slice of strings.
pub open spec fn string_views(ss: Seq<String>) -> Seq<Seq<char>> {
    ss.map_values(|s: String| s@)
}

/// The bytes of the initial user stack that `kernel_elf_parser::app_stack_region`
/// builds.
pub uninterp spec fn user_stack_image(
    args: Seq<Seq<char>>,
    envs: Seq<Seq<char>>,
    auxv: Seq<AuxPair>,
    sp: usize,
) -> Seq<u8>;

/// `kernel_elf_parser::app_stack_region`: the initial stack below `sp`, of
/// `stack_region_len` bytes, whose contents the contract names.  It indexes
/// the first argument, so there must be one; it subtracts the stack's size
/// from `sp`, so `sp` must be at least that size; and it asserts that the
/// stack pointer it ends at is 16-byte aligned.
#[verifier::external_body]
pub(crate) fn app_stack_region(args: &[String], envs: &[String], auxv: &[AuxPair], sp: usize) -> (r: Vec<u8>)
    requires
        args@.len() >= 1,
        forall|i: int| 0 <= i < auxv@.len() ==> !((#[trigger] auxv@[i]).kind is Other),
        sp >= stack_region_len(string_views(args@), string_views(envs@), auxv@.len() as int, sp as int),
        (sp - stack_region_len(string_views(args@), string_views(envs@), auxv@.len() as int, sp as int))
            % 16 == 0,
    ensures
        r@.len() == stack_region_len(string_views(args@), string_views(envs@), auxv@.len() as int, sp as int),
        r@ == user_stack_image(string_views(args@), string_views(envs@), auxv@, sp),
{
    let entries: Vec<AuxEntry> = auxv.iter().map(|p| AuxEntry::new(match p.kind {
        AuxKind::Null => AuxType::NULL,
        AuxKind::Phdr => AuxType::PHDR,
        AuxKind::Phent => AuxType::PHENT,
        AuxKind::Phnum => AuxType::PHNUM,
        AuxKind::Pagesz => AuxType::PAGESZ,
        AuxKind::Base => AuxType::BASE,
        AuxKind::Entry | AuxKind::Other(_) => AuxType::ENTRY,
    }, p.value)).collect();
    kernel_elf_parser::app_stack_region(args, envs, &entries, sp)
}

/// `256` to the power `n`.
pub open spec fn pow256(n: nat) -> int
    decreases n,
{
    if n == 0 {
        1
    } else {
        256 * pow256((n - 1) as nat)
    }
}

proof fn lemma_le_uint_bound(s: Seq<u8>, off: int, n: nat)
    requires
        0 <= off,
        off + n <= s.len(),
    ensures
        0 <= le_uint(s, off, n) < pow256(n),
    decreases n,
{
    if n > 0 {
        lemma_le_uint_bound(s, off + 1, (n - 1) as nat);
        let rest = le_uint(s, off + 1, (n - 1) as nat);
        let p = pow256((n - 1) as nat);
        let b = s[off] as int;
        assert(b + 256 * rest < 256 * p) by (nonlinear_arith)
            requires
                0 <= b < 256,
                0 <= rest < p;
    }
}

proof fn lemma_pow256_le_8(n: nat)
    requires
        n <= 7,
    ensures
        256 * pow256(n) <= pow256(8),
        pow256(8) == 0x1_0000_0000_0000_0000,
    decreases n,
{
    reveal_with_fuel(pow256, 9);
    if n > 0 {
        lemma_pow256_le_8((n - 1) as nat);
    }
}

/// Reads the little-endian number in the `n` bytes of `s` at `off`.
pub(crate) fn read_le(s: &[u8], off: usize, n: usize) -> (r: u64)
    requires
        n <= 8,
        off + n <= s@.len(),
    ensures
        r == le_uint(s@, off as int, n as nat),
{
    let mut acc: u64 = 0;
    let mut j: usize = n;
    let len = s.len();
    while j > 0
        invariant
            len == s@.len(),
            j <= n <= 8,
            off + n <= s@.len(),
            acc == le_uint(s@, off + j, (n - j) as nat),
        decreases j,
    {
        j = j - 1;
        proof {
            lemma_le_uint_bound(s@, off + j + 1, (n - j - 1) as nat);
            lemma_pow256_le_8((n - j - 1) as nat);
        }
        assert(off + j < s@.len());
        let byte = s[off + j];
        acc = byte as u64 + 256 * acc;
    }
    acc
}

/// Decides `aux_vector_defined` for the table bytes `ph` that `build_auxv`
/// hands to the parser.
pub fn aux_vector_is_defined(data: &ElfImage, ph: &[u8], bias: usize) -> (b: bool)
    requires
        elf_header_info(data@) matches Some(h) && h.ph_entry_size >= ph_struct_size(h.class64),
    ensures
        b == aux_vector_defined(data@, ph@, bias),
{
    let h = match crate::elf::parse_elf_header(data) {
        Some(h) => h,
        None => return false,
    };
    let ghost pos = h.ph_offset as int;
    if h.ph_offset > usize::MAX as u64 {
        return false;
    }
    let ent = h.ph_entry_size as usize;
    let ph_len = ph.len();
    let count = ph_len / ent;
    let (off_at, size_at, va_at, width): (usize, usize, usize, usize) = if h.class64 {
        (8, 32, 16, 8)
    } else {
        (4, 16, 8, 4)
    };
    let mut i: usize = 0;
    let mut found = false;
    while i < count
        invariant_except_break
            !found,
        invariant
            ent == h.ph_entry_size,
            ph_len == ph@.len(),
            ent >= ph_struct_size(h.class64),
            count == (ph@.len() as int) / (ent as int),
            h == elf_header_info(data@)->Some_0,
            pos == h.ph_offset,
            i <= count,
            (off_at, size_at, va_at, width) == if h.class64 {
                (8usize, 32usize, 16usize, 8usize)
            } else {
                (4usize, 16usize, 8usize, 4usize)
            },
            forall|k: int| 0 <= k < i ==> !#[trigger] ph_covers(ph@, ent as int, h.class64, k, pos),
            forall|k: int|
                0 <= k < i ==> #[trigger] raw_ph_offset(ph@, ent as int, h.class64, k) + raw_ph_filesz(
                    ph@,
                    ent as int,
                    h.class64,
                    k,
                ) <= u64::MAX,
        ensures
            i <= count,
            forall|k: int| 0 <= k < i ==> !#[trigger] ph_covers(ph@, ent as int, h.class64, k, pos),
            forall|k: int|
                0 <= k < i ==> #[trigger] raw_ph_offset(ph@, ent as int, h.class64, k) + raw_ph_filesz(
                    ph@,
                    ent as int,
                    h.class64,
                    k,
                ) <= u64::MAX,
            found ==> i < count && is_covering_header(ph@, ent as int, h.class64, pos, i as int),
            !found ==> (i == count || exists|k: int|
                0 <= k <= i && #[trigger] raw_ph_offset(ph@, ent as int, h.class64, k) + raw_ph_filesz(
                    ph@,
                    ent as int,
                    h.class64,
                    k,
                ) > u64::MAX),
        decreases count - i,
    {
        assert((i + 1) * ent <= ph@.len()) by (nonlinear_arith)
            requires
                i < count,
                count == (ph@.len() as int) / (ent as int),
                ent > 0;
        assert(i * ent + ent == (i + 1) * ent) by (nonlinear_arith);
        assert(i * ent + ent <= ph@.len());
        let start = i * ent;
        let off = read_le(ph, start + off_at, width);
        let size = read_le(ph, start + size_at, width);
        if off > u64::MAX - size {
            assert(raw_ph_offset(ph@, ent as int, h.class64, i as int) + raw_ph_filesz(
                ph@,
                ent as int,
                h.class64,
                i as int,
            ) > u64::MAX);
            return false;
        }
        if off <= h.ph_offset && h.ph_offset < off + size {
            found = true;
            break;
        }
        i = i + 1;
    }
    if !found {
        proof {
            if exists|k: int| is_covering_header(ph@, ent as int, h.class64, pos, k) {
                let k = choose|k: int| is_covering_header(ph@, ent as int, h.class64, pos, k);
                assert(!ph_covers(ph@, ent as int, h.class64, k, pos));
            }
        }
        return false;
    }
    let ghost k = i as int;
    proof {
        let c = choose|c: int| is_covering_header(ph@, ent as int, h.class64, pos, c);
        if c < k {
            assert(!ph_covers(ph@, ent as int, h.class64, c, pos));
        } else if c > k {
            assert(!ph_covers(ph@, ent as int, h.class64, k, pos));
        }
    }
    assert((i + 1) * ent <= ph@.len()) by (nonlinear_arith)
        requires
            i < count,
            count == (ph@.len() as int) / (ent as int),
            ent > 0;
    assert(i * ent + ent == (i + 1) * ent) by (nonlinear_arith);
    assert(i * ent + ent <= ph@.len());
    let start = i * ent;
    let off = read_le(ph, start + off_at, width);
    let vaddr = read_le(ph, start + va_at, width);
    let base: u128 = if h.kind == ElfKind::SharedObject {
        bias as u128
    } else {
        0
    };
    let phdr: u128 = h.ph_offset as u128 - off as u128 + vaddr as u128 + base;
    phdr <= usize::MAX as u128 && h.entry as u128 + base <= usize::MAX as u128
}

} // verus!
