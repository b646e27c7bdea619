use myos::elf::{
    AuxKind, AuxPair, ElfHeaderInfo, ElfImage, ElfKind, ElfMachine, ProgramSegment,
    SegmentKind,
};
use myos::error::KernelError;
use myos::image::{image_plan_is_defined, main_interp_path, plan_image, ph_table_fits_exec, try_load_user_app, ImagePlace};
use myos::loader::{
    build_auxv, build_auxv_is_defined, compute_load_bias, plan_segment, plan_segments, read_interp_path,
    segment_flags, validate_machine, zero_fill_chunks, SegmentLoad, TargetArch, UserAppLoadInfo,
};
use myos::page::MapPerm;

const PT_LOAD: u32 = 1;
const PT_INTERP: u32 = 3;

struct Ph {
    kind: u32,
    flags: u32,
    offset: u64,
    vaddr: u64,
    filesz: u64,
    memsz: u64,
}

/// A 64-bit little-endian ELF image with the given type, machine, entry
/// point and program headers (table at offset 64), padded to `len` bytes,
/// with `extra` written at `extra_at`.
fn elf64(e_type: u16, machine: u16, entry: u64, phs: &[Ph], len: usize, extra_at: usize, extra: &[u8]) -> Vec<u8> {
    let mut v = vec![0u8; len];
    v[0..4].copy_from_slice(&[0x7f, b'E', b'L', b'F']);
    v[4] = 2;
    v[5] = 1;
    v[6] = 1;
    v[16..18].copy_from_slice(&e_type.to_le_bytes());
    v[18..20].copy_from_slice(&machine.to_le_bytes());
    v[20..24].copy_from_slice(&1u32.to_le_bytes());
    v[24..32].copy_from_slice(&entry.to_le_bytes());
    v[32..40].copy_from_slice(&64u64.to_le_bytes());
    v[52..54].copy_from_slice(&64u16.to_le_bytes());
    v[54..56].copy_from_slice(&56u16.to_le_bytes());
    v[56..58].copy_from_slice(&(phs.len() as u16).to_le_bytes());
    for (i, p) in phs.iter().enumerate() {
        let b = 64 + 56 * i;
        v[b..b + 4].copy_from_slice(&p.kind.to_le_bytes());
        v[b + 4..b + 8].copy_from_slice(&p.flags.to_le_bytes());
        v[b + 8..b + 16].copy_from_slice(&p.offset.to_le_bytes());
        v[b + 16..b + 24].copy_from_slice(&p.vaddr.to_le_bytes());
        v[b + 24..b + 32].copy_from_slice(&p.vaddr.to_le_bytes());
        v[b + 32..b + 40].copy_from_slice(&p.filesz.to_le_bytes());
        v[b + 40..b + 48].copy_from_slice(&p.memsz.to_le_bytes());
        v[b + 48..b + 56].copy_from_slice(&0x1000u64.to_le_bytes());
    }
    v[extra_at..extra_at + extra.len()].copy_from_slice(extra);
    v
}

/// A static RISC-V executable: one loadable segment holding the headers,
/// mapped at 0x10000 with some zero-filled memory after it.
fn static_exe() -> Vec<u8> {
    elf64(2, 0xF3, 0x10100, &[Ph { kind: PT_LOAD, flags: 5, offset: 0, vaddr: 0x10000, filesz: 0x200, memsz: 0x2345 }], 0x200, 0, &[])
}

/// A position-independent RISC-V program naming `/lib/ld.so` as its
/// interpreter.
fn dyn_exe() -> Vec<u8> {
    elf64(
        3,
        0xF3,
        0x180,
        &[
            Ph { kind: PT_LOAD, flags: 5, offset: 0, vaddr: 0, filesz: 0x300, memsz: 0x300 },
            Ph { kind: PT_INTERP, flags: 4, offset: 0x200, vaddr: 0x200, filesz: 16, memsz: 16 },
        ],
        0x300,
        0x200,
        b"/lib/ld.so\0junk",
    )
}

/// A position-independent RISC-V interpreter.
fn interp_exe() -> Vec<u8> {
    elf64(3, 0xF3, 0x40, &[Ph { kind: PT_LOAD, flags: 7, offset: 0, vaddr: 0x1000, filesz: 0x100, memsz: 0x100 }], 0x100, 0, &[])
}

fn img(d: &[u8]) -> ElfImage {
    ElfImage::new(d)
}

fn seg(kind: SegmentKind, offset: u64, vaddr: u64, file_size: u64, mem_size: u64) -> ProgramSegment {
    ProgramSegment { kind, offset, vaddr, file_size, mem_size, readable: true, writable: false, executable: true }
}

#[test]
fn reads_header_and_segments_through_the_plan() {
    let data = static_exe();
    let p = plan_image(&img(&data), 0x20_0000, TargetArch::RiscV64);
    assert_eq!(p.result, Ok(ImagePlace { bias: 0, entry: 0x10100 }));
    assert_eq!(
        p.loads,
        vec![SegmentLoad {
            map_start: 0x10000,
            map_size: 0x3000,
            perm: MapPerm { read: true, write: false, execute: true, user: true },
            vaddr: 0x10000,
            file_offset: 0,
            file_size: 0x200,
            zero_start: 0x10200,
            zero_size: 0x2145,
        }]
    );
    let bad = plan_image(&img(&[0u8; 80]), 0, TargetArch::RiscV64);
    assert!(bad.loads.is_empty());
    assert_eq!(bad.result, Err(KernelError::InvalidExecutable));
    let _ = seg(SegmentKind::Load, 0, 0, 0, 0);
}

#[test]
fn machine_validation() {
    assert_eq!(validate_machine(ElfMachine::RiscV, TargetArch::RiscV64), Ok(()));
    assert_eq!(validate_machine(ElfMachine::Unnamed(0x102), TargetArch::LoongArch64), Ok(()));
    assert_eq!(validate_machine(ElfMachine::RiscV, TargetArch::LoongArch64), Err(KernelError::InvalidExecutable));
    assert_eq!(validate_machine(ElfMachine::Unnamed(0x102), TargetArch::RiscV64), Err(KernelError::InvalidExecutable));
    assert_eq!(validate_machine(ElfMachine::Named, TargetArch::RiscV64), Err(KernelError::InvalidExecutable));
}

#[test]
fn load_bias_from_lowest_segment() {
    let segs = [
        seg(SegmentKind::Load, 0, 0x5123, 0x10, 0x10),
        seg(SegmentKind::Load, 0, 0x3456, 0x10, 0x10),
        seg(SegmentKind::Load, 0, 0x100, 0, 0),
        seg(SegmentKind::Interp, 0, 0x10, 0x10, 0x10),
    ];
    assert_eq!(compute_load_bias(&segs, 0x20_0000), Ok(0x20_0000 - 0x3000));
    assert_eq!(compute_load_bias(&segs, 0x1000), Err(KernelError::InvalidExecutable));
    assert_eq!(compute_load_bias(&segs[2..], 0x20_0000), Err(KernelError::InvalidExecutable));
}

#[test]
fn segment_plans() {
    let s = seg(SegmentKind::Load, 0x100, 0x10_0800, 0x300, 0x1900);
    assert_eq!(segment_flags(&s), MapPerm { read: true, write: false, execute: true, user: true });
    assert_eq!(
        plan_segment(&s, 0x1000, 0x1000),
        Ok(Some(SegmentLoad {
            map_start: 0x10_1000,
            map_size: 0x3000,
            perm: MapPerm { read: true, write: false, execute: true, user: true },
            vaddr: 0x10_1800,
            file_offset: 0x100,
            file_size: 0x300,
            zero_start: 0x10_1b00,
            zero_size: 0x1600,
        }))
    );
    assert_eq!(plan_segment(&seg(SegmentKind::Interp, 0, 0, 1, 1), 10, 0), Ok(None));
    assert_eq!(plan_segment(&seg(SegmentKind::Load, 0, 0, 0, 0), 10, 0), Ok(None));
    assert_eq!(plan_segment(&seg(SegmentKind::Load, 0, 0, 5, 4), 10, 0), Err(KernelError::InvalidExecutable));
    assert_eq!(plan_segment(&seg(SegmentKind::Load, 8, 0, 5, 5), 10, 0), Err(KernelError::InvalidExecutable));
    assert_eq!(plan_segment(&seg(SegmentKind::Load, 0, u64::MAX, 1, 1), 10, 1), Err(KernelError::OutOfRange));
    assert_eq!(plan_segment(&seg(SegmentKind::Load, 0, u64::MAX - 10, 1, 5), 10, 0), Err(KernelError::OutOfRange));
    let many = [seg(SegmentKind::Load, 0, 0x1000, 4, 4), seg(SegmentKind::Load, 0, 0, 5, 4), seg(SegmentKind::Load, 8, 0, 5, 5)];
    let (loads, err) = plan_segments(&many, 10, 0);
    assert_eq!(err, Some(KernelError::InvalidExecutable));
    assert_eq!(loads.len(), 1);
    assert_eq!(loads[0].vaddr, 0x1000);
    let (loads, err) = plan_segments(&many[..1], 10, 0);
    assert_eq!((loads.len(), err), (1, None));
}

#[test]
fn zero_fill_pieces() {
    assert_eq!(zero_fill_chunks(0x1000, 0), vec![]);
    assert_eq!(zero_fill_chunks(0x1000, 10), vec![(0x1000, 10)]);
    assert_eq!(zero_fill_chunks(0x1000, 0x2001), vec![(0x1000, 0x1000), (0x2000, 0x1000), (0x3000, 1)]);
    assert_eq!(zero_fill_chunks(0x10, 0x2000), vec![(0x10, 0x1000), (0x1010, 0x1000)]);
}

#[test]
fn interpreter_paths() {
    let data = b"xx/lib/ld.so\0yy\xff\xfe\0";
    let interp = |off: u64, size: u64| [seg(SegmentKind::Load, 0, 0, 0, 0), seg(SegmentKind::Interp, off, 0, size, size)];
    assert_eq!(read_interp_path(&[seg(SegmentKind::Load, 0, 0, 0, 0)], data), Ok(None));
    assert_eq!(read_interp_path(&interp(2, 13), data), Ok(Some("/lib/ld.so".to_string())));
    assert_eq!(read_interp_path(&interp(2, 9), data), Ok(Some("/lib/ld.s".to_string())));
    assert_eq!(read_interp_path(&interp(2, 0), data), Err(KernelError::InvalidExecutable));
    assert_eq!(read_interp_path(&interp(2, 100), data), Err(KernelError::InvalidExecutable));
    assert_eq!(read_interp_path(&interp(15, 3), data), Err(KernelError::InvalidExecutable));
    assert_eq!(read_interp_path(&interp(12, 2), data), Err(KernelError::InvalidExecutable));
    assert_eq!(read_interp_path(&interp(u64::MAX, 2), data), Err(KernelError::InvalidExecutable));
}

#[test]
fn auxiliary_vector_of_static_program() {
    let data = static_exe();
    assert!(build_auxv_is_defined(&img(&data), 0));
    let auxv = build_auxv(&img(&data), 0, None).unwrap();
    assert_eq!(
        auxv,
        vec![
            AuxPair { kind: AuxKind::Phdr, value: 0x10040 },
            AuxPair { kind: AuxKind::Phent, value: 56 },
            AuxPair { kind: AuxKind::Phnum, value: 1 },
            AuxPair { kind: AuxKind::Pagesz, value: 4096 },
            AuxPair { kind: AuxKind::Entry, value: 0x10100 },
            AuxPair { kind: AuxKind::Null, value: 0 },
        ]
    );
}

#[test]
fn auxiliary_vector_with_interpreter() {
    let data = dyn_exe();
    let auxv = build_auxv(&img(&data), 0x20_0000, Some(0x4000_0000)).unwrap();
    assert_eq!(auxv[0], AuxPair { kind: AuxKind::Phdr, value: 0x20_0040 });
    assert_eq!(auxv[2], AuxPair { kind: AuxKind::Phnum, value: 2 });
    assert_eq!(auxv[4], AuxPair { kind: AuxKind::Entry, value: 0x20_0180 });
    assert_eq!(auxv[5], AuxPair { kind: AuxKind::Base, value: 0x4000_0000 });
    assert_eq!(auxv[6], AuxPair { kind: AuxKind::Null, value: 0 });
}

#[test]
fn image_plans() {
    let data = static_exe();
    let p = plan_image(&img(&data), 0x20_0000, TargetArch::RiscV64);
    assert_eq!(p.result, Ok(ImagePlace { bias: 0, entry: 0x10100 }));
    assert_eq!(p.loads.len(), 1);
    assert_eq!(p.loads[0].map_start, 0x10000);
    assert_eq!(p.loads[0].map_size, 0x3000);
    let other = plan_image(&img(&data), 0, TargetArch::LoongArch64);
    assert!(other.loads.is_empty());
    assert_eq!(other.result, Err(KernelError::InvalidExecutable));
    let d = dyn_exe();
    let q = plan_image(&img(&d), 0x20_0000, TargetArch::RiscV64);
    assert_eq!(q.result, Ok(ImagePlace { bias: 0x20_0000, entry: 0x20_0180 }));
    assert!(image_plan_is_defined(&img(&d), TargetArch::RiscV64));
}

#[test]
fn program_header_table_fit() {
    let h = ElfHeaderInfo { class64: true, kind: ElfKind::Executable, machine: ElfMachine::RiscV, entry: 0, ph_offset: 64, ph_entry_size: 56, ph_count: 2 };
    assert!(ph_table_fits_exec(h, 176));
    assert!(!ph_table_fits_exec(h, 175));
    assert!(!ph_table_fits_exec(ElfHeaderInfo { ph_entry_size: 40, ..h }, 1000));
    assert!(ph_table_fits_exec(ElfHeaderInfo { ph_offset: 0, ..h }, 0));
}

#[test]
fn misaligned_program_header_table() {
    let h = ElfHeaderInfo { class64: true, kind: ElfKind::Executable, machine: ElfMachine::RiscV, entry: 0, ph_offset: 0x41, ph_entry_size: 56, ph_count: 2 };
    assert!(!ph_table_fits_exec(h, 1000));
    assert!(!ph_table_fits_exec(ElfHeaderInfo { ph_offset: 64, ph_entry_size: 60, ..h }, 1000));
    assert!(ph_table_fits_exec(ElfHeaderInfo { ph_offset: 64, ph_entry_size: 60, ph_count: 1, ..h }, 1000));
    let h32 = ElfHeaderInfo { class64: false, ph_offset: 52, ph_entry_size: 36, ..h };
    assert!(ph_table_fits_exec(h32, 1000));
    assert!(!ph_table_fits_exec(ElfHeaderInfo { ph_offset: 54, ..h32 }, 1000));

    let mut moved = static_exe();
    let table: Vec<u8> = moved[64..120].to_vec();
    moved[0x41..0x41 + 56].copy_from_slice(&table);
    moved[32..40].copy_from_slice(&0x41u64.to_le_bytes());
    assert!(!image_plan_is_defined(&img(&moved), TargetArch::RiscV64));
    assert!(!build_auxv_is_defined(&img(&moved), 0));
    assert_eq!(main_interp_path(&img(&moved), TargetArch::RiscV64), None);
    assert!(try_load_user_app(&img(&moved), "/x", &[], None, TargetArch::RiscV64, 0x4_0000_0000, 0x3000_0000).is_none());
}

#[test]
fn interpreter_named_by_program() {
    assert_eq!(main_interp_path(&img(&static_exe()), TargetArch::RiscV64), Some(Ok(None)));
    assert_eq!(main_interp_path(&img(&dyn_exe()), TargetArch::RiscV64), Some(Ok(Some("/lib/ld.so".to_string()))));
    assert_eq!(main_interp_path(&img(&[1u8, 2, 3]), TargetArch::RiscV64), Some(Err(KernelError::InvalidExecutable)));
    let mut bad = static_exe();
    bad[56] = 200;
    assert_eq!(main_interp_path(&img(&bad), TargetArch::RiscV64), None);
}

#[test]
fn loading_a_static_program() {
    let data = static_exe();
    let plan = try_load_user_app(&img(&data), "/bin/app", &["a", "bc"], None, TargetArch::RiscV64, 0x4_0000_0000, 0x3000_0000)
        .unwrap();
    assert_eq!(plan.main_loads.len(), 1);
    assert_eq!(plan.main_loads[0].map_start, 0x10000);
    assert!(plan.interp_loads.is_empty());
    let start = plan.result.unwrap();
    assert_eq!(start.info.entry, 0x10100);
    assert_eq!(start.info.user_sp % 16, 0);
    assert_eq!(start.info.user_sp + start.stack.len(), 0x4_0000_0000);
    let argc = u64::from_le_bytes(start.stack[0..8].try_into().unwrap());
    assert_eq!(argc, 3);
}

#[test]
fn loading_with_an_interpreter() {
    let main = dyn_exe();
    let interp = interp_exe();
    let plan = try_load_user_app(&img(&main), "/bin/app", &[], Some(&img(&interp)), TargetArch::RiscV64, 0x4_0000_0000, 0x3000_0000)
        .unwrap();
    let ib = 0x3000_0000 - 0x1000;
    assert_eq!(plan.main_loads.len(), 1);
    assert_eq!(plan.main_loads[0].map_start, 0x20_0000);
    assert_eq!(plan.interp_loads.len(), 1);
    assert_eq!(plan.interp_loads[0].vaddr, ib + 0x1000);
    let start = plan.result.unwrap();
    assert_eq!(start.info.entry, ib + 0x40);
    assert_eq!(start.info.user_sp % 16, 0);
    // The interpreter could not be read: the program's segments are loaded
    // before the error is reported.
    let missing = try_load_user_app(&img(&main), "/bin/app", &[], None, TargetArch::RiscV64, 0x4_0000_0000, 0x3000_0000)
        .unwrap();
    assert_eq!(missing.main_loads.len(), 1);
    assert!(missing.interp_loads.is_empty());
    assert!(matches!(missing.result, Err(KernelError::NotFound)));
}

#[test]
fn loading_failures() {
    // A position-independent program without an interpreter: its segments
    // are loaded, then loading fails.
    let mut no_interp = dyn_exe();
    no_interp[64 + 56..64 + 60].copy_from_slice(&PT_LOAD.to_le_bytes());
    no_interp[64 + 56 + 40..64 + 56 + 48].copy_from_slice(&0u64.to_le_bytes());
    let p = try_load_user_app(&img(&no_interp), "/x", &[], None, TargetArch::RiscV64, 0x4_0000_0000, 0x3000_0000).unwrap();
    assert_eq!(p.main_loads.len(), 1);
    assert!(matches!(p.result, Err(KernelError::Unsupported)));
    let p = try_load_user_app(&img(&static_exe()), "/x", &[], None, TargetArch::LoongArch64, 0x4_0000_0000, 0x3000_0000).unwrap();
    assert!(p.main_loads.is_empty());
    assert!(matches!(p.result, Err(KernelError::InvalidExecutable)));
    assert!(try_load_user_app(&img(&static_exe()), "/x", &[], None, TargetArch::RiscV64, 0x40, 0x3000_0000).is_none());
    let _ = UserAppLoadInfo { entry: 0, user_sp: 0 };
}

#[test]
fn earlier_segments_load_before_a_failing_one() {
    // The second loadable segment claims more file bytes than its memory.
    let data = elf64(
        2,
        0xF3,
        0x10100,
        &[
            Ph { kind: PT_LOAD, flags: 5, offset: 0, vaddr: 0x10000, filesz: 0x100, memsz: 0x100 },
            Ph { kind: PT_LOAD, flags: 6, offset: 0, vaddr: 0x20000, filesz: 0x80, memsz: 0x40 },
        ],
        0x200,
        0,
        &[],
    );
    let p = plan_image(&img(&data), 0, TargetArch::RiscV64);
    assert_eq!(p.loads.len(), 1);
    assert_eq!(p.loads[0].vaddr, 0x10000);
    assert_eq!(p.result, Err(KernelError::InvalidExecutable));
    let l = try_load_user_app(&img(&data), "/x", &[], None, TargetArch::RiscV64, 0x4_0000_0000, 0x3000_0000).unwrap();
    assert_eq!(l.main_loads.len(), 1);
    assert!(matches!(l.result, Err(KernelError::InvalidExecutable)));
}

#[test]
fn images_at_any_address_are_read() {
    // The image starts one byte into the buffer; the loader copies it
    // before parsing, so the result is that of the aligned image.
    let mut buf = vec![0u8];
    buf.extend_from_slice(&static_exe());
    let shifted = img(&buf[1..]);
    assert!(image_plan_is_defined(&shifted, TargetArch::RiscV64));
    assert_eq!(main_interp_path(&shifted, TargetArch::RiscV64), Some(Ok(None)));
    let p = try_load_user_app(&shifted, "/x", &[], None, TargetArch::RiscV64, 0x4_0000_0000, 0x3000_0000).unwrap();
    assert_eq!(p.result.unwrap().info.entry, 0x10100);
    let e = img(&buf[1..]);
    assert_eq!(e.len(), static_exe().len());
    assert_eq!(build_auxv(&e, 0, None).unwrap()[0], AuxPair { kind: AuxKind::Phdr, value: 0x10040 });
}

/// A 32-bit RISC-V executable with one loadable segment holding its headers
/// (table at offset 52).
fn elf32_exe() -> Vec<u8> {
    let mut v = vec![0u8; 0x100];
    v[0..4].copy_from_slice(&[0x7f, b'E', b'L', b'F']);
    v[4] = 1;
    v[5] = 1;
    v[6] = 1;
    v[16..18].copy_from_slice(&2u16.to_le_bytes());
    v[18..20].copy_from_slice(&0xF3u16.to_le_bytes());
    v[24..28].copy_from_slice(&0x8010u32.to_le_bytes());
    v[28..32].copy_from_slice(&52u32.to_le_bytes());
    v[40..42].copy_from_slice(&52u16.to_le_bytes());
    v[42..44].copy_from_slice(&32u16.to_le_bytes());
    v[44..46].copy_from_slice(&1u16.to_le_bytes());
    let b = 52;
    v[b..b + 4].copy_from_slice(&1u32.to_le_bytes());
    v[b + 4..b + 8].copy_from_slice(&0u32.to_le_bytes());
    v[b + 8..b + 12].copy_from_slice(&0x8000u32.to_le_bytes());
    v[b + 16..b + 20].copy_from_slice(&0x100u32.to_le_bytes());
    v[b + 20..b + 24].copy_from_slice(&0x180u32.to_le_bytes());
    v[b + 24..b + 28].copy_from_slice(&6u32.to_le_bytes());
    v
}

#[test]
fn thirty_two_bit_images() {
    let data = elf32_exe();
    let p = plan_image(&img(&data), 0, TargetArch::RiscV64);
    assert_eq!(p.result, Ok(ImagePlace { bias: 0, entry: 0x8010 }));
    assert_eq!(p.loads[0].perm, MapPerm { read: true, write: true, execute: false, user: true });
    assert_eq!(p.loads[0].zero_start, 0x8100);
    assert_eq!(p.loads[0].zero_size, 0x80);
    let auxv = build_auxv(&img(&data), 0, None).unwrap();
    assert_eq!(auxv[0], AuxPair { kind: AuxKind::Phdr, value: 0x8034 });
    assert_eq!(auxv[1], AuxPair { kind: AuxKind::Phent, value: 32 });
}
