//! Loading a user program: what to map and write for the program, its
//! interpreter and its initial stack, and where it starts.
//!
//! The kernel maps each segment as it goes, so a failure part-way leaves
//! the segments before it mapped.  The plans here say so: each lists the
//! loads that are carried out, in order, before its result is known, and
//! the application maps them before it reports an error.
use vstd::prelude::*;
use crate::error::KernelError;
use crate::elf::{
    AuxKind, AuxPair, SegmentKind, ElfHeaderInfo, ElfImage, elf_header_info, elf_segments, image_bytes, parse_elf_header, parse_elf_segments,
    ph_table_fits, ElfKind,
};
use crate::aux::{strings_size, app_stack_region, stack_region_len, string_views, user_stack_image};
use crate::loader::{
    build_auxv, build_auxv_defined, build_auxv_is_defined, build_auxv_spec, compute_load_bias, interp_path_spec, load_bias_spec,
    machine_matches, plan_segments, read_interp_path, segments_plan_spec, validate_machine, SegmentLoad,
    TargetArch, UserAppLoadInfo, USER_DYN_BASE,
};

verus! {

/// Where a loaded image lies: the offset by which it was moved and its
/// entry point after the move.
#[derive(Clone, Copy, Debug, PartialEq, Eq, Structural)]
pub struct ImagePlace {
    pub bias: usize,
    pub entry: usize,
}

/// Loading one image: the loads of its segments, carried out in table
/// order, and then where the image lies or why loading it failed.
pub struct ImageStage {
    pub loads: Vec<SegmentLoad>,
    pub result: Result<ImagePlace, KernelError>,
}

impl View for ImageStage {
    type V = (Seq<SegmentLoad>, Result<ImagePlace, KernelError>);

    open spec fn view(&self) -> (Seq<SegmentLoad>, Result<ImagePlace, KernelError>) {
        (self.loads@, self.result)
    }
}

/// Where an image's program headers are read: the images whose machine and
/// type the loader accepts.
pub open spec fn image_reads_segments(data: Seq<u8>, arch: TargetArch) -> bool {
    elf_header_info(data) matches Some(h) && machine_matches(h.machine, arch) && (h.kind
        == ElfKind::Executable || h.kind == ElfKind::SharedObject)
}

/// The images on which planning does not panic: where the loader reads the
/// program headers, the table lies inside the image at aligned offsets.
pub open spec fn image_plan_defined(data: Seq<u8>, arch: TargetArch) -> bool {
    image_reads_segments(data, arch) ==> ph_table_fits(
        elf_header_info(data)->Some_0,
        data.len() as int,
    )
}

/// What loading one image amounts to, with a position-independent image
/// placed at `desired_base`.  It fails with `InvalidExecutable`, before any
/// load, where the header does not parse, the machine is not this one, or
/// the type is neither executable nor shared object, and with the bias's
/// error where that fails.  Otherwise the segments are loaded in table
/// order up to the first that fails, whose error is the result; after all
/// of them the result is the bias and the moved entry point (`OutOfRange`
/// where it overflows).
pub open spec fn image_plan_spec(data: Seq<u8>, desired_base: usize, arch: TargetArch) -> (
    Seq<SegmentLoad>,
    Result<ImagePlace, KernelError>,
) {
    match elf_header_info(data) {
        None => (Seq::empty(), Err(KernelError::InvalidExecutable)),
        Some(h) => {
            if !machine_matches(h.machine, arch) {
                (Seq::empty(), Err(KernelError::InvalidExecutable))
            } else {
                let segs = elf_segments(data);
                let bias_r = if h.kind == ElfKind::Executable {
                    Ok(0usize)
                } else if h.kind == ElfKind::SharedObject {
                    load_bias_spec(segs, desired_base)
                } else {
                    Err(KernelError::InvalidExecutable)
                };
                match bias_r {
                    Err(e) => (Seq::empty(), Err(e)),
                    Ok(bias) => {
                        let (loads, err) = segments_plan_spec(segs, data.len() as int, bias);
                        match err {
                            Some(e) => (loads, Err(e)),
                            None => {
                                if (h.entry as usize) + bias > usize::MAX {
                                    (loads, Err(KernelError::OutOfRange))
                                } else {
                                    (loads, Ok(ImagePlace { bias, entry: ((h.entry as usize) + bias) as usize }))
                                }
                            },
                        }
                    },
                }
            }
        },
    }
}

/// Plans the loading of one image; see `image_plan_spec`.
pub fn plan_image(data: &ElfImage, desired_base: usize, arch: TargetArch) -> (r: ImageStage)
    requires
        image_plan_defined(data@, arch),
    ensures
        r@ == image_plan_spec(data@, desired_base, arch),
{
    let h = match parse_elf_header(data) {
        Some(h) => h,
        None => return ImageStage { loads: Vec::new(), result: Err(KernelError::InvalidExecutable) },
    };
    match validate_machine(h.machine, arch) {
        Ok(()) => {},
        Err(e) => return ImageStage { loads: Vec::new(), result: Err(e) },
    }
    let bias = match h.kind {
        ElfKind::Executable => 0,
        ElfKind::SharedObject => {
            let segs = parse_elf_segments(data);
            match compute_load_bias(segs.as_slice(), desired_base) {
                Ok(b) => b,
                Err(e) => return ImageStage { loads: Vec::new(), result: Err(e) },
            }
        },
        ElfKind::Other => return ImageStage { loads: Vec::new(), result: Err(KernelError::InvalidExecutable) },
    };
    let segs = parse_elf_segments(data);
    let (loads, err) = plan_segments(segs.as_slice(), data.len(), bias);
    if let Some(e) = err {
        return ImageStage { loads, result: Err(e) };
    }
    let result = match (h.entry as usize).checked_add(bias) {
        Some(entry) => Ok(ImagePlace { bias, entry }),
        None => Err(KernelError::OutOfRange),
    };
    ImageStage { loads, result }
}

/// What the main program's stage of loading amounts to: the loads of its
/// image, then where it lies and the interpreter it names.  Reading the
/// interpreter's path comes after the image is loaded; a
/// position-independent program that names no interpreter fails with
/// `Unsupported`, its segments already loaded.
pub open spec fn main_stage_spec(data: Seq<u8>, arch: TargetArch) -> (
    Seq<SegmentLoad>,
    Result<(ImagePlace, Option<Seq<char>>), KernelError>,
) {
    let (loads, r) = image_plan_spec(data, USER_DYN_BASE, arch);
    match r {
        Err(e) => (loads, Err(e)),
        Ok(place) => match interp_path_spec(elf_segments(data), data) {
            Err(e) => (loads, Err(e)),
            Ok(p) => {
                if elf_header_info(data)->Some_0.kind == ElfKind::SharedObject && p is None {
                    (loads, Err(KernelError::Unsupported))
                } else {
                    (loads, Ok((place, p)))
                }
            },
        },
    }
}

/// The view of an optional path.
pub open spec fn opt_path_view(p: Option<String>) -> Option<Seq<char>> {
    match p {
        Some(s) => Some(s@),
        None => None,
    }
}

/// Plans the main program's image and reads the interpreter it names; see
/// `main_stage_spec`.
fn plan_main(data: &ElfImage, arch: TargetArch) -> (r: (
    Vec<SegmentLoad>,
    Result<(ImagePlace, Option<String>), KernelError>,
))
    requires
        image_plan_defined(data@, arch),
    ensures
        r.0@ == main_stage_spec(data@, arch).0,
        match r.1 {
            Ok((place, p)) => main_stage_spec(data@, arch).1 == Ok::<
                (ImagePlace, Option<Seq<char>>),
                KernelError,
            >((place, opt_path_view(p))),
            Err(e) => main_stage_spec(data@, arch).1 == Err::<(ImagePlace, Option<Seq<char>>), KernelError>(e),
        },
{
    let stage = plan_image(data, USER_DYN_BASE, arch);
    let place = match stage.result {
        Ok(p) => p,
        Err(e) => return (stage.loads, Err(e)),
    };
    let h = match parse_elf_header(data) {
        Some(h) => h,
        None => return (stage.loads, Err(KernelError::InvalidExecutable)),
    };
    let segs = parse_elf_segments(data);
    let interp_path = match read_interp_path(segs.as_slice(), image_bytes(data)) {
        Ok(p) => p,
        Err(e) => return (stage.loads, Err(e)),
    };
    if h.kind == ElfKind::SharedObject && interp_path.is_none() {
        return (stage.loads, Err(KernelError::Unsupported));
    }
    (stage.loads, Ok((place, interp_path)))
}

/// The interpreter that the main program asks for, once the loader has
/// checked the program as far as it does before reading the interpreter:
/// see `main_stage_spec`.  It answers `None` on the images on which reading
/// the program headers would panic (those `image_plan_defined` leaves out).
pub fn main_interp_path(main_data: &ElfImage, arch: TargetArch) -> (r: Option<Result<Option<String>, KernelError>>)
    ensures
        r is None <==> !image_plan_defined(main_data@, arch),
        r matches Some(Ok(p)) ==> main_stage_spec(main_data@, arch).1 matches Ok((_, q)) && q
            == opt_path_view(p),
        r matches Some(Err(e)) ==> main_stage_spec(main_data@, arch).1 == Err::<
            (ImagePlace, Option<Seq<char>>),
            KernelError,
        >(e),
{
    if !image_plan_is_defined(main_data, arch) {
        return None;
    }
    match plan_main(main_data, arch).1 {
        Ok((_, p)) => Some(Ok(p)),
        Err(e) => Some(Err(e)),
    }
}

/// The interpreter's stage: nothing where the program names none;
/// `NotFound` where it names one that could not be read; otherwise the
/// loading of the interpreter's image, placed at `interp_base`.
pub open spec fn interp_stage_spec(
    path: Option<Seq<char>>,
    interp: Option<Seq<u8>>,
    arch: TargetArch,
    interp_base: usize,
) -> (Seq<SegmentLoad>, Result<Option<ImagePlace>, KernelError>) {
    match path {
        None => (Seq::empty(), Ok(None)),
        Some(_) => match interp {
            None => (Seq::empty(), Err(KernelError::NotFound)),
            Some(d) => {
                let (loads, r) = image_plan_spec(d, interp_base, arch);
                match r {
                    Err(e) => (loads, Err(e)),
                    Ok(i) => (loads, Ok(Some(i))),
                }
            },
        },
    }
}

/// The bias of the interpreter's image, where there is one.
pub open spec fn interp_bias(ii: Option<ImagePlace>) -> Option<usize> {
    match ii {
        Some(i) => Some(i.bias),
        None => None,
    }
}

/// The argument vector of a program: its path, then its arguments.
pub open spec fn argv_spec(path: Seq<char>, args: Seq<&str>) -> Seq<Seq<char>> {
    seq![path] + args.map_values(|a: &str| a@)
}

/// The view of an optional image.
pub open spec fn opt_image_view(d: Option<&ElfImage>) -> Option<Seq<u8>> {
    match d {
        Some(d) => Some(d@),
        None => None,
    }
}

/// The inputs on which loading runs to the end without a panic: the
/// program's and the interpreter's program headers lie inside their images
/// at aligned offsets, `kernel_elf_parser` finds the program's header
/// table, and the initial stack fits below `stack_top`.
pub open spec fn load_defined(
    main: Seq<u8>,
    interp: Option<Seq<u8>>,
    argv: Seq<Seq<char>>,
    arch: TargetArch,
    stack_top: usize,
    interp_base: usize,
) -> bool {
    &&& image_plan_defined(main, arch)
    &&& main_stage_spec(main, arch).1 matches Ok((place, p)) ==> {
        &&& (p is Some && interp is Some) ==> image_plan_defined(interp->Some_0, arch)
        &&& interp_stage_spec(p, interp, arch, interp_base).1 matches Ok(ii) ==> {
            &&& build_auxv_defined(main, place.bias)
            &&& build_auxv_spec(main, place.bias, interp_bias(ii)) matches Ok(auxv) ==> {
                &&& stack_top >= stack_region_len(argv, Seq::empty(), auxv.len() as int, stack_top as int)
                &&& (stack_top - stack_region_len(argv, Seq::empty(), auxv.len() as int, stack_top as int))
                    % 16 == 0
            }
        }
    }
}

/// Everything loading a program amounts to: the loads of the program's
/// segments, then those of the interpreter's, carried out in that order
/// before the result is known; and the result: the initial stack built
/// below `stack_top`, where the program starts (the interpreter's entry
/// where there is one) and its stack pointer (just below the stack), or
/// the first failure.  Each stage fails as its own specification says.
pub open spec fn load_plan_spec(
    main: Seq<u8>,
    interp: Option<Seq<u8>>,
    argv: Seq<Seq<char>>,
    arch: TargetArch,
    stack_top: usize,
    interp_base: usize,
) -> (Seq<SegmentLoad>, Seq<SegmentLoad>, Result<(Seq<u8>, UserAppLoadInfo), KernelError>) {
    let (main_loads, mr) = main_stage_spec(main, arch);
    match mr {
        Err(e) => (main_loads, Seq::empty(), Err(e)),
        Ok((place, p)) => {
            let (interp_loads, ir) = interp_stage_spec(p, interp, arch, interp_base);
            match ir {
                Err(e) => (main_loads, interp_loads, Err(e)),
                Ok(ii) => {
                    let entry = match ii {
                        Some(i) => i.entry,
                        None => place.entry,
                    };
                    match build_auxv_spec(main, place.bias, interp_bias(ii)) {
                        Err(e) => (main_loads, interp_loads, Err(e)),
                        Ok(auxv) => {
                            let len = stack_region_len(argv, Seq::empty(), auxv.len() as int, stack_top as int);
                            (
                                main_loads,
                                interp_loads,
                                Ok(
                                    (
                                        user_stack_image(argv, Seq::empty(), auxv, stack_top),
                                        UserAppLoadInfo { entry, user_sp: (stack_top - len) as usize },
                                    ),
                                ),
                            )
                        },
                    }
                },
            }
        },
    }
}

/// The initial stack to write at `info.user_sp`, and where the program
/// starts.
pub struct UserStart {
    pub stack: Vec<u8>,
    pub info: UserAppLoadInfo,
}

/// What the application carries out to load a program: map and fill the
/// program's segments from its image, then the interpreter's from the
/// interpreter's image, stopping at the first that fails; then report the
/// error, or write the stack and start the program.
pub struct LoadPlan {
    pub main_loads: Vec<SegmentLoad>,
    pub interp_loads: Vec<SegmentLoad>,
    pub result: Result<UserStart, KernelError>,
}

impl View for LoadPlan {
    type V = (Seq<SegmentLoad>, Seq<SegmentLoad>, Result<(Seq<u8>, UserAppLoadInfo), KernelError>);

    open spec fn view(&self) -> (Seq<SegmentLoad>, Seq<SegmentLoad>, Result<(Seq<u8>, UserAppLoadInfo), KernelError>) {
        (
            self.main_loads@,
            self.interp_loads@,
            match self.result {
                Ok(s) => Ok((s.stack@, s.info)),
                Err(e) => Err(e),
            },
        )
    }
}

/// The auxiliary vectors that loading builds hold only the entries this
/// kernel knows how to hand to the stack builder.
proof fn lemma_auxv_kinds(main: Seq<u8>, bias: usize, ib: Option<usize>)
    requires
        build_auxv_spec(main, bias, ib) is Ok,
    ensures
        forall|i: int|
            0 <= i < build_auxv_spec(main, bias, ib)->Ok_0.len() ==> !((#[trigger] build_auxv_spec(
                main,
                bias,
                ib,
            )->Ok_0[i]).kind is Other),
{
}

/// On a machine with 64-bit words the initial stack pointer is 16-byte
/// aligned, whatever the arguments, so the stack builder's alignment check
/// always passes there.
pub proof fn law_stack_pointer_aligned(args: Seq<Seq<char>>, envs: Seq<Seq<char>>, n_aux: int, sp: int)
    requires
        usize::BITS == 64,
        n_aux >= 0,
        sp >= stack_region_len(args, envs, n_aux, sp),
    ensures
        (sp - stack_region_len(args, envs, n_aux, sp)) % 16 == 0,
{
    let head = 16 + crate::aux::strings_size(envs) + crate::aux::strings_size(args) + 8;
    let pad = (sp - head) % 16;
    let odd: int = if (envs.len() + args.len() + 3) % 2 == 1 { 8 } else { 0 };
    let e = envs.len() as int;
    let a = args.len() as int;
    assert(crate::aux::word_size() == 8);
    assert((sp - head - pad) % 16 == 0) by (nonlinear_arith)
        requires pad == (sp - head) % 16;
    assert((odd + 8 * (e + a + 3)) % 16 == 0) by (nonlinear_arith)
        requires
            odd == if (e + a + 3) % 2 == 1 { 8int } else { 0int },
            e >= 0,
            a >= 0;
    assert((16 * n_aux + 32) % 16 == 0) by (nonlinear_arith);
    assert(sp - stack_region_len(args, envs, n_aux, sp) == (sp - head - pad) - (odd + 8 * (e + a + 3))
        - (16 * n_aux + 32));
    assert(((sp - head - pad) - (odd + 8 * (e + a + 3)) - (16 * n_aux + 32)) % 16 == 0) by (nonlinear_arith)
        requires
            (sp - head - pad) % 16 == 0,
            (odd + 8 * (e + a + 3)) % 16 == 0,
            (16 * n_aux + 32) % 16 == 0;
}

/// Whatever the program's type, an executable as well as a
/// position-independent one: once its image loads, the main stage hands on
/// the interpreter that its first PT_INTERP names, or fails as reading that
/// path fails.  A program with a PT_INTERP never goes on without an
/// interpreter, and one without a PT_INTERP goes on without one unless it is
/// position-independent.  The stage's loads are those of the image.
pub proof fn law_main_stage_names_interp(data: Seq<u8>, arch: TargetArch)
    requires
        image_plan_spec(data, USER_DYN_BASE, arch).1 is Ok,
    ensures
        main_stage_spec(data, arch).0 == image_plan_spec(data, USER_DYN_BASE, arch).0,
        interp_path_spec(elf_segments(data), data) matches Ok(Some(p)) ==> main_stage_spec(data, arch).1
            == Ok::<(ImagePlace, Option<Seq<char>>), KernelError>(
            (image_plan_spec(data, USER_DYN_BASE, arch).1->Ok_0, Some(p)),
        ),
        interp_path_spec(elf_segments(data), data) matches Err(e) ==> main_stage_spec(data, arch).1
            == Err::<(ImagePlace, Option<Seq<char>>), KernelError>(e),
        (exists|k: int|
            0 <= k < elf_segments(data).len() && (#[trigger] elf_segments(data)[k]).kind
                == SegmentKind::Interp) ==> !(main_stage_spec(data, arch).1 matches Ok((_, None))),
        (forall|k: int|
            0 <= k < elf_segments(data).len() ==> (#[trigger] elf_segments(data)[k]).kind
                != SegmentKind::Interp) ==> (main_stage_spec(data, arch).1 is Ok <==> elf_header_info(
            data,
        )->Some_0.kind != ElfKind::SharedObject),
{
}

/// Where an image loads, its header parsed, its machine is this one and it
/// is an executable or a position-independent image; its entry point is the
/// header's moved by the bias; an executable stays where it was linked
/// (bias 0), and a position-independent image is moved so that the page of
/// its lowest occupied segment lies at `desired_base`.  An image rejected
/// for its header, machine or type loads nothing.
pub proof fn law_image_place(data: Seq<u8>, desired_base: usize, arch: TargetArch)
    ensures
        image_plan_spec(data, desired_base, arch).1 matches Ok(pl) ==> {
            let h = elf_header_info(data)->Some_0;
            &&& elf_header_info(data) is Some
            &&& machine_matches(h.machine, arch)
            &&& h.kind == ElfKind::Executable || h.kind == ElfKind::SharedObject
            &&& pl.entry == (h.entry as usize) + pl.bias
            &&& h.kind == ElfKind::Executable ==> pl.bias == 0
            &&& h.kind == ElfKind::SharedObject ==> crate::loader::min_load_vaddr(elf_segments(data)) is Some
                && crate::page::page_floor(crate::loader::min_load_vaddr(elf_segments(data))->Some_0 as int)
                + pl.bias == desired_base
        },
        (elf_header_info(data) is None || !machine_matches(elf_header_info(data)->Some_0.machine, arch)
            || elf_header_info(data)->Some_0.kind == ElfKind::Other) ==> image_plan_spec(
            data,
            desired_base,
            arch,
        ) == (Seq::<SegmentLoad>::empty(), Err::<ImagePlace, KernelError>(KernelError::InvalidExecutable)),
{
    if let Ok(pl) = image_plan_spec(data, desired_base, arch).1 {
        let h = elf_header_info(data)->Some_0;
        if h.kind == ElfKind::SharedObject {
            assert(load_bias_spec(elf_segments(data), desired_base) == Ok::<usize, KernelError>(pl.bias));
            crate::loader::law_bias_places_lowest_page(elf_segments(data), desired_base);
        }
    }
}

/// Where the program names no interpreter, none is loaded, the program
/// starts at its own entry point, and the auxiliary vector carries no
/// interpreter base.
pub proof fn law_no_interp_own_entry(
    main: Seq<u8>,
    interp: Option<Seq<u8>>,
    argv: Seq<Seq<char>>,
    arch: TargetArch,
    stack_top: usize,
    interp_base: usize,
)
    requires
        main_stage_spec(main, arch).1 matches Ok((_, None)),
    ensures
        ({
            let (ml, il, r) = load_plan_spec(main, interp, argv, arch, stack_top, interp_base);
            let place = main_stage_spec(main, arch).1->Ok_0.0;
            &&& il.len() == 0
            &&& r matches Ok((_, info)) ==> info.entry == place.entry
            &&& build_auxv_spec(main, place.bias, None) matches Ok(v) ==> forall|i: int|
                0 <= i < v.len() ==> (#[trigger] v[i]).kind != AuxKind::Base
        }),
{
}

/// Where the program names an interpreter that was read and whose image
/// loads, the interpreter's segments are loaded after the program's, the
/// program starts at the interpreter's entry, and the auxiliary vector
/// tells the interpreter its base.
pub proof fn law_interp_dispatch(
    main: Seq<u8>,
    interp: Seq<u8>,
    argv: Seq<Seq<char>>,
    arch: TargetArch,
    stack_top: usize,
    interp_base: usize,
)
    requires
        main_stage_spec(main, arch).1 matches Ok((_, Some(_))),
        image_plan_spec(interp, interp_base, arch).1 is Ok,
    ensures
        ({
            let (ml, il, r) = load_plan_spec(main, Some(interp), argv, arch, stack_top, interp_base);
            let place = main_stage_spec(main, arch).1->Ok_0.0;
            let ip = image_plan_spec(interp, interp_base, arch).1->Ok_0;
            &&& ml == main_stage_spec(main, arch).0
            &&& il == image_plan_spec(interp, interp_base, arch).0
            &&& r matches Ok((_, info)) ==> info.entry == ip.entry
            &&& build_auxv_spec(main, place.bias, Some(ip.bias)) is Ok ==> r is Ok
            &&& build_auxv_spec(main, place.bias, Some(ip.bias)) matches Ok(v) ==> exists|i: int|
                0 <= i < v.len() && #[trigger] v[i] == AuxPair { kind: AuxKind::Base, value: ip.bias }
        }),
{
    let place = main_stage_spec(main, arch).1->Ok_0.0;
    let ip = image_plan_spec(interp, interp_base, arch).1->Ok_0;
    if let Ok(v) = build_auxv_spec(main, place.bias, Some(ip.bias)) {
        assert(v[v.len() - 2] == AuxPair { kind: AuxKind::Base, value: ip.bias });
    }
}

/// Plans the loading of a program: `main_data` is the program's image,
/// `interp_data` the interpreter's where the program names one and it could
/// be read.  See `load_plan_spec`; the stack pointer it plans is 16-byte
/// aligned.
pub fn load_user_app(
    main_data: &ElfImage,
    path: &str,
    args: &[&str],
    interp_data: Option<&ElfImage>,
    arch: TargetArch,
    stack_top: usize,
    interp_base: usize,
) -> (r: LoadPlan)
    requires
        load_defined(main_data@, opt_image_view(interp_data), argv_spec(path@, args@), arch, stack_top, interp_base),
    ensures
        r@ == load_plan_spec(main_data@, opt_image_view(interp_data), argv_spec(path@, args@), arch, stack_top, interp_base),
        r.result matches Ok(s) ==> s.info.user_sp % 16 == 0,
{
    let (main_loads, mr) = plan_main(main_data, arch);
    let (place, interp_path) = match mr {
        Ok(x) => x,
        Err(e) => return LoadPlan { main_loads, interp_loads: Vec::new(), result: Err(e) },
    };
    let (interp_loads, ir): (Vec<SegmentLoad>, Result<Option<ImagePlace>, KernelError>) = match interp_path {
        None => (Vec::new(), Ok(None)),
        Some(_) => match interp_data {
            None => (Vec::new(), Err(KernelError::NotFound)),
            Some(d) => {
                let stage = plan_image(d, interp_base, arch);
                match stage.result {
                    Ok(i) => (stage.loads, Ok(Some(i))),
                    Err(e) => (stage.loads, Err(e)),
                }
            },
        },
    };
    let ii = match ir {
        Ok(x) => x,
        Err(e) => return LoadPlan { main_loads, interp_loads, result: Err(e) },
    };
    let (interp_base_used, dispatch_entry) = match ii {
        Some(i) => (Some(i.bias), i.entry),
        None => (None, place.entry),
    };
    let auxv = match build_auxv(main_data, place.bias, interp_base_used) {
        Ok(v) => v,
        Err(e) => return LoadPlan { main_loads, interp_loads, result: Err(e) },
    };
    proof {
        lemma_auxv_kinds(main_data@, place.bias, interp_base_used);
    }
    let argv = make_argv(path, args);
    let envs: Vec<String> = Vec::new();
    assert(string_views(envs@) =~= Seq::<Seq<char>>::empty());
    let stack = app_stack_region(argv.as_slice(), envs.as_slice(), auxv.as_slice(), stack_top);
    let user_sp = stack_top - stack.len();
    LoadPlan {
        main_loads,
        interp_loads,
        result: Ok(UserStart { stack, info: UserAppLoadInfo { entry: dispatch_entry, user_sp } }),
    }
}

/// The argument vector of a program as owned strings: its path, then its
/// arguments.
pub fn make_argv(path: &str, args: &[&str]) -> (argv: Vec<String>)
    ensures
        string_views(argv@) == argv_spec(path@, args@),
        argv@.len() >= 1,
{
    let mut argv: Vec<String> = Vec::new();
    argv.push(path.to_owned());
    assert(string_views(argv@) =~= argv_spec(path@, args@).take(1));
    let mut i: usize = 0;
    while i < args.len()
        invariant
            i <= args@.len(),
            string_views(argv@) == argv_spec(path@, args@).take(i as int + 1),
        decreases args@.len() - i,
    {
        let ghost before = argv@;
        let a = args[i].to_owned();
        argv.push(a);
        assert(string_views(argv@) =~= string_views(before).push(a@));
        assert(argv_spec(path@, args@).take(i as int + 2) =~= argv_spec(path@, args@).take(
            i as int + 1,
        ).push(args@[i as int]@));
        i = i + 1;
    }
    assert(argv_spec(path@, args@).take(args@.len() as int + 1) =~= argv_spec(path@, args@));
    argv
}

/// Decides `ph_table_fits`.
pub fn ph_table_fits_exec(h: ElfHeaderInfo, len: usize) -> (b: bool)
    ensures
        b == ph_table_fits(h, len as int),
{
    if h.ph_offset == 0 || h.ph_entry_size == 0 || h.ph_count == 0 {
        return true;
    }
    assert(h.ph_count * h.ph_entry_size <= 65535 * 65535) by (nonlinear_arith)
        requires
            h.ph_entry_size <= 65535,
            h.ph_count <= 65535;
    let end: u128 = h.ph_offset as u128 + h.ph_count as u128 * h.ph_entry_size as u128;
    let (struct_size, align): (u16, u64) = if h.class64 {
        (56, 8)
    } else {
        (32, 4)
    };
    let offset_aligned = h.ph_offset % align == 0;
    let entries_aligned = h.ph_count < 2 || h.ph_entry_size as u64 % align == 0;
    end <= len as u128 && h.ph_entry_size >= struct_size && offset_aligned && entries_aligned
}

/// Decides `image_plan_defined`.
pub fn image_plan_is_defined(data: &ElfImage, arch: TargetArch) -> (b: bool)
    ensures
        b == image_plan_defined(data@, arch),
{
    let h = match parse_elf_header(data) {
        Some(h) => h,
        None => return true,
    };
    let machine_ok = match validate_machine(h.machine, arch) {
        Ok(()) => true,
        Err(_) => false,
    };
    if !machine_ok || !(h.kind == ElfKind::Executable || h.kind == ElfKind::SharedObject) {
        return true;
    }
    ph_table_fits_exec(h, data.len())
}

/// Strings take more room on the stack as more of them are pushed.
proof fn lemma_strings_size_prefix(ss: Seq<Seq<char>>, j: int)
    requires
        0 <= j <= ss.len(),
    ensures
        strings_size(ss.take(j)) <= strings_size(ss),
    decreases ss.len() - j,
{
    if j < ss.len() {
        lemma_strings_size_prefix(ss, j + 1);
        assert(ss.take(j + 1).drop_last() =~= ss.take(j));
    } else {
        assert(ss.take(j) =~= ss);
    }
}

/// Decides whether the initial stack for `argv` and an auxiliary vector of
/// `n_aux` entries fits below `sp` and ends on a 16-byte boundary.
pub fn stack_fits(argv: &[String], n_aux: usize, sp: usize) -> (b: bool)
    ensures
        b == (sp >= stack_region_len(string_views(argv@), Seq::empty(), n_aux as int, sp as int) && (sp
            - stack_region_len(string_views(argv@), Seq::empty(), n_aux as int, sp as int)) % 16 == 0),
{
    let ghost views = string_views(argv@);
    let mut total: u128 = 24;
    let mut i: usize = 0;
    while i < argv.len()
        invariant
            i <= argv@.len(),
            views == string_views(argv@),
            total == 24 + strings_size(views.take(i as int)),
            total <= usize::MAX + 1,
        decreases argv@.len() - i,
    {
        assert(views.take(i as int + 1).drop_last() =~= views.take(i as int));
        assert(views.take(i as int + 1).last() == argv@[i as int]@);
        let st = argv[i].as_str();
        let bytes = st.as_bytes();
        let n = bytes.len();
        assert(st@ == argv@[i as int]@);
        assert(n == vstd::utf8::encode_utf8(st@).len());
        total = total + n as u128 + 1;
        i = i + 1;
        if total > usize::MAX as u128 {
            proof {
                lemma_strings_size_prefix(views, i as int);
                assert(strings_size(Seq::<Seq<char>>::empty()) == 0);
            }
            return false;
        }
    }
    assert(views.take(argv@.len() as int) =~= views);
    assert(strings_size(Seq::<Seq<char>>::empty()) == 0);
    if total > sp as u128 {
        return false;
    }
    let w: u128 = usize::BITS as u128 / 8;
    assert(w == crate::aux::word_size());
    let pad: u128 = (sp as u128 - total) % 16;
    let odd: u128 = if (argv.len() as u128 + 3) % 2 == 1 {
        8
    } else {
        0
    };
    assert(w <= 16);
    assert(2 * w * n_aux <= 32 * usize::MAX) by (nonlinear_arith)
        requires
            w <= 16,
            n_aux <= usize::MAX;
    assert(w * argv.len() <= 16 * usize::MAX) by (nonlinear_arith)
        requires
            w <= 16,
            argv.len() <= usize::MAX;
    let need: u128 = total + pad + odd + 2 * w * n_aux as u128 + 4 * w + 8 + 8 + w * argv.len() as u128 + w;
    sp as u128 >= need && (sp as u128 - need) % 16 == 0
}

/// Plans the loading of a program where that runs without a panic, and
/// answers `None` on the inputs on which it would panic: those that
/// `load_defined` leaves out.  See `load_user_app`.
pub fn try_load_user_app(
    main_data: &ElfImage,
    path: &str,
    args: &[&str],
    interp_data: Option<&ElfImage>,
    arch: TargetArch,
    stack_top: usize,
    interp_base: usize,
) -> (r: Option<LoadPlan>)
    ensures
        r is None <==> !load_defined(
            main_data@,
            opt_image_view(interp_data),
            argv_spec(path@, args@),
            arch,
            stack_top,
            interp_base,
        ),
        r matches Some(p) ==> p@ == load_plan_spec(
            main_data@,
            opt_image_view(interp_data),
            argv_spec(path@, args@),
            arch,
            stack_top,
            interp_base,
        ),
        r matches Some(p) ==> (p.result matches Ok(s) ==> s.info.user_sp % 16 == 0),
{
    if !image_plan_is_defined(main_data, arch) {
        return None;
    }
    let (_, mr) = plan_main(main_data, arch);
    let (place, interp_path) = match mr {
        Ok(x) => x,
        Err(_) => return Some(load_user_app(main_data, path, args, interp_data, arch, stack_top, interp_base)),
    };
    let interp_bias = match interp_path {
        None => None,
        Some(_) => match interp_data {
            None => return Some(load_user_app(main_data, path, args, interp_data, arch, stack_top, interp_base)),
            Some(d) => {
                if !image_plan_is_defined(d, arch) {
                    return None;
                }
                match plan_image(d, interp_base, arch).result {
                    Ok(i) => Some(i.bias),
                    Err(_) => return Some(
                        load_user_app(main_data, path, args, interp_data, arch, stack_top, interp_base),
                    ),
                }
            },
        },
    };
    if !build_auxv_is_defined(main_data, place.bias) {
        return None;
    }
    let n_aux = match build_auxv(main_data, place.bias, interp_bias) {
        Ok(v) => v.len(),
        Err(_) => return Some(load_user_app(main_data, path, args, interp_data, arch, stack_top, interp_base)),
    };
    let argv = make_argv(path, args);
    if !stack_fits(argv.as_slice(), n_aux, stack_top) {
        return None;
    }
    Some(load_user_app(main_data, path, args, interp_data, arch, stack_top, interp_base))
}

} // verus!
