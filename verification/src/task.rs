//! The layout of a new user process and the page-fault decision.
use vstd::prelude::*;
use crate::page::MapPerm;

verus! {

/// Where a user process's memory lies; the kernel's configuration fixes
/// these values.
#[derive(Clone, Copy, Debug, PartialEq, Eq, Structural)]
pub struct UserMemConfig {
    pub space_base: usize,
    pub space_size: usize,
    pub stack_top: usize,
    pub stack_size: usize,
    pub heap_base: usize,
    pub heap_size: usize,
    pub mmap_base: usize,
}

/// A region to map when a process is created: `size` bytes at `start` with
/// `perm`, with its frames allocated at once where `populate`.
#[derive(Clone, Copy, Debug, PartialEq, Eq, Structural)]
pub struct RegionPlan {
    pub start: usize,
    pub size: usize,
    pub perm: MapPerm,
    pub populate: bool,
}

/// What creating a user process sets up: its address space, its stack
/// (allocated at once, since the loader writes the initial stack into it)
/// and its initial heap (allocated on demand), and the starting values of
/// its break, its mapping cursor, its stack pointer and its entry point.
#[derive(Clone, Copy, Debug, PartialEq, Eq, Structural)]
pub struct NewProcessPlan {
    pub space_base: usize,
    pub space_size: usize,
    pub stack: RegionPlan,
    pub heap: RegionPlan,
    pub heap_top: usize,
    pub mmap_base: usize,
    pub stack_top: usize,
    pub entry: usize,
}

/// Read-write user memory.
pub open spec fn user_rw() -> MapPerm {
    MapPerm { read: true, write: true, execute: false, user: true }
}

/// The plan of a new user process for the configuration `cfg`: the user
/// address space, a stack of `stack_size` bytes ending at `stack_top` and
/// mapped at once, a heap of `heap_size` bytes from `heap_base` mapped on
/// demand, both read-write; the break at the heap's end and the mapping
/// cursor at `mmap_base`.
pub open spec fn new_user_plan_spec(cfg: UserMemConfig) -> NewProcessPlan {
    NewProcessPlan {
        space_base: cfg.space_base,
        space_size: cfg.space_size,
        stack: RegionPlan {
            start: (cfg.stack_top - cfg.stack_size) as usize,
            size: cfg.stack_size,
            perm: user_rw(),
            populate: true,
        },
        heap: RegionPlan { start: cfg.heap_base, size: cfg.heap_size, perm: user_rw(), populate: false },
        heap_top: (cfg.heap_base + cfg.heap_size) as usize,
        mmap_base: cfg.mmap_base,
        stack_top: cfg.stack_top,
        entry: 0,
    }
}

/// A new process's stack ends exactly at the stack top and is mapped at
/// once; its heap starts at the heap base, is mapped on demand, and its
/// break starts at the heap's end; both are user read-write memory that
/// cannot be executed.
pub proof fn law_new_user_layout(cfg: UserMemConfig)
    requires
        cfg.stack_top >= cfg.stack_size,
        cfg.heap_base + cfg.heap_size <= usize::MAX,
    ensures
        ({
            let p = new_user_plan_spec(cfg);
            &&& p.stack.start + p.stack.size == cfg.stack_top
            &&& p.stack.size == cfg.stack_size
            &&& p.stack.populate && !p.heap.populate
            &&& p.heap.start == cfg.heap_base && p.heap.size == cfg.heap_size
            &&& p.heap_top == cfg.heap_base + cfg.heap_size
            &&& p.mmap_base == cfg.mmap_base && p.stack_top == cfg.stack_top
            &&& p.space_base == cfg.space_base && p.space_size == cfg.space_size
            &&& p.stack.perm == MapPerm { read: true, write: true, execute: false, user: true }
            &&& p.heap.perm == MapPerm { read: true, write: true, execute: false, user: true }
        }),
{
}

/// Plans a new user process for the configuration `cfg`.
pub fn new_user_plan(cfg: &UserMemConfig) -> (p: NewProcessPlan)
    requires
        cfg.stack_top >= cfg.stack_size,
        cfg.heap_base + cfg.heap_size <= usize::MAX,
    ensures
        p == new_user_plan_spec(*cfg),
        p == (NewProcessPlan {
            space_base: cfg.space_base,
            space_size: cfg.space_size,
            stack: RegionPlan {
                start: (cfg.stack_top - cfg.stack_size) as usize,
                size: cfg.stack_size,
                perm: user_rw(),
                populate: true,
            },
            heap: RegionPlan { start: cfg.heap_base, size: cfg.heap_size, perm: user_rw(), populate: false },
            heap_top: (cfg.heap_base + cfg.heap_size) as usize,
            mmap_base: cfg.mmap_base,
            stack_top: cfg.stack_top,
            entry: 0,
        }),
{
    let rw = MapPerm { read: true, write: true, execute: false, user: true };
    let stack_bottom = cfg.stack_top - cfg.stack_size;
    NewProcessPlan {
        space_base: cfg.space_base,
        space_size: cfg.space_size,
        stack: RegionPlan { start: stack_bottom, size: cfg.stack_size, perm: rw, populate: true },
        heap: RegionPlan { start: cfg.heap_base, size: cfg.heap_size, perm: rw, populate: false },
        heap_top: cfg.heap_base + cfg.heap_size,
        mmap_base: cfg.mmap_base,
        stack_top: cfg.stack_top,
        entry: 0,
    }
}

/// What the page-fault handler does: refuse the fault, or hand it to the
/// current process's address space as a write fault or a read fault.
#[derive(Clone, Copy, Debug, PartialEq, Eq, Structural)]
pub enum FaultAction {
    Reject,
    Delegate { write: bool },
}

/// Faults in kernel space, and user faults with no current process, are
/// refused; the others go to the process's address space, as write faults
/// where the access was a write.
pub fn page_fault_action(is_user: bool, has_process: bool, write_access: bool) -> (a: FaultAction)
    ensures
        a == if !is_user || !has_process {
            FaultAction::Reject
        } else {
            FaultAction::Delegate { write: write_access }
        },
{
    if !is_user {
        return FaultAction::Reject;
    }
    if !has_process {
        return FaultAction::Reject;
    }
    FaultAction::Delegate { write: write_access }
}

} // verus!
