//! The per-process table of open file descriptors.
use vstd::prelude::*;

verus! {

/// What a descriptor refers to: one of the three standard streams, or an
/// open file, whose handle type `F` the caller chooses.
pub enum FileDesc<F> {
    Stdin,
    Stdout,
    Stderr,
    File(F),
}

/// A table of descriptors indexed by descriptor number; `None` marks a free
/// slot.  Descriptors 0, 1 and 2 are the standard streams and stay open.
pub struct FdTable<F> {
    fds: Vec<Option<FileDesc<F>>>,
}

/// The table's slots hold the three standard streams at 0, 1 and 2.
pub open spec fn fd_slots_wf<F>(s: Seq<Option<FileDesc<F>>>) -> bool {
    &&& s.len() >= 3
    &&& s[0] == Some(FileDesc::<F>::Stdin)
    &&& s[1] == Some(FileDesc::<F>::Stdout)
    &&& s[2] == Some(FileDesc::<F>::Stderr)
}

/// The slot that allocation fills: the lowest free slot from 3 on, or the
/// end of the table when there is none.
pub open spec fn is_alloc_slot<F>(s: Seq<Option<FileDesc<F>>>, fd: int) -> bool {
    &&& 3 <= fd <= s.len()
    &&& forall|j: int| 3 <= j < fd ==> (#[trigger] s[j]) is Some
    &&& fd < s.len() ==> s[fd] is None
}

/// The slots after `d` has been put into slot `fd`, which is free or the end.
pub open spec fn fill_slot<F>(s: Seq<Option<FileDesc<F>>>, fd: int, d: FileDesc<F>) -> Seq<
    Option<FileDesc<F>>,
> {
    if fd < s.len() {
        s.update(fd, Some(d))
    } else {
        s.push(Some(d))
    }
}

/// What looking up `fd` gives.
pub open spec fn lookup<F>(s: Seq<Option<FileDesc<F>>>, fd: int) -> Option<FileDesc<F>> {
    if 0 <= fd < s.len() {
        s[fd]
    } else {
        None
    }
}

/// Whether closing `fd` succeeds: it is not a standard stream and is open.
pub open spec fn can_close<F>(s: Seq<Option<FileDesc<F>>>, fd: int) -> bool {
    3 <= fd < s.len() && s[fd] is Some
}

/// The slots after closing `fd`.
pub open spec fn close_slot<F>(s: Seq<Option<FileDesc<F>>>, fd: int) -> Seq<Option<FileDesc<F>>> {
    if can_close(s, fd) {
        s.update(fd, None)
    } else {
        s
    }
}

/// Allocating a descriptor and then looking it up gives back what was
/// stored; every other slot looks up as before, and the standard streams
/// stay in place.
pub proof fn law_alloc_then_get<F>(s: Seq<Option<FileDesc<F>>>, fd: int, d: FileDesc<F>)
    requires
        fd_slots_wf(s),
        is_alloc_slot(s, fd),
    ensures
        fd_slots_wf(fill_slot(s, fd, d)),
        lookup(fill_slot(s, fd, d), fd) == Some(d),
        forall|j: int| j != fd ==> lookup(fill_slot(s, fd, d), j) == lookup(s, j),
{
}

/// Allocation picks exactly one slot: any two slots that meet the
/// allocation rule for the same table are the same.
pub proof fn law_alloc_slot_unique<F>(s: Seq<Option<FileDesc<F>>>, a: int, b: int)
    requires
        is_alloc_slot(s, a),
        is_alloc_slot(s, b),
    ensures
        a == b,
{
    if a < b {
        assert(s[a] is Some);
    } else if b < a {
        assert(s[b] is Some);
    }
}

/// A freshly allocated descriptor can be closed, and afterwards it no longer
/// looks up; closing it a second time fails.
pub proof fn law_alloc_then_close<F>(s: Seq<Option<FileDesc<F>>>, fd: int, d: FileDesc<F>)
    requires
        fd_slots_wf(s),
        is_alloc_slot(s, fd),
    ensures
        can_close(fill_slot(s, fd, d), fd),
        lookup(close_slot(fill_slot(s, fd, d), fd), fd) is None,
        !can_close(close_slot(fill_slot(s, fd, d), fd), fd),
{
}

/// The standard streams can never be closed, and they always look up as
/// themselves.
pub proof fn law_std_streams_stay<F>(s: Seq<Option<FileDesc<F>>>, fd: int)
    requires
        fd_slots_wf(s),
        0 <= fd < 3,
    ensures
        !can_close(s, fd),
        close_slot(s, fd) == s,
        lookup(s, 0) == Some(FileDesc::<F>::Stdin),
        lookup(s, 1) == Some(FileDesc::<F>::Stdout),
        lookup(s, 2) == Some(FileDesc::<F>::Stderr),
{
}

/// Closing keeps the table well formed, and a descriptor that was closed
/// cannot be closed again.
pub proof fn law_close_twice_fails<F>(s: Seq<Option<FileDesc<F>>>, fd: int)
    requires
        fd_slots_wf(s),
        can_close(s, fd),
    ensures
        fd_slots_wf(close_slot(s, fd)),
        !can_close(close_slot(s, fd), fd),
        forall|j: int| j != fd ==> lookup(close_slot(s, fd), j) == lookup(s, j),
{
}

/// After closing `fd`, the next allocation reuses `fd` or a lower number.
pub proof fn law_alloc_reuses_closed<F>(s: Seq<Option<FileDesc<F>>>, fd: int, next: int)
    requires
        fd_slots_wf(s),
        can_close(s, fd),
        is_alloc_slot(close_slot(s, fd), next),
    ensures
        next <= fd,
{
    let t = close_slot(s, fd);
    if next > fd {
        assert(t[fd] is Some);
    }
}

impl<F> FdTable<F> {
    /// The slots of the table.
    pub closed spec fn view(&self) -> Seq<Option<FileDesc<F>>> {
        self.fds@
    }

    pub open spec fn wf(&self) -> bool {
        fd_slots_wf(self@)
    }

    /// A table with the three standard streams open and nothing else.
    pub fn new() -> (t: Self)
        ensures
            t.wf(),
            t@ == seq![
                Some(FileDesc::<F>::Stdin),
                Some(FileDesc::<F>::Stdout),
                Some(FileDesc::<F>::Stderr),
            ],
    {
        let mut fds: Vec<Option<FileDesc<F>>> = Vec::new();
        fds.push(Some(FileDesc::Stdin));
        fds.push(Some(FileDesc::Stdout));
        fds.push(Some(FileDesc::Stderr));
        let t = Self { fds };
        assert(t@ =~= seq![
            Some(FileDesc::<F>::Stdin),
            Some(FileDesc::<F>::Stdout),
            Some(FileDesc::<F>::Stderr),
        ]);
        t
    }

    /// Puts `file_desc` into the lowest free slot from 3 on, or at the end,
    /// and returns that slot's number; it always succeeds.
    pub fn alloc_fd(&mut self, file_desc: FileDesc<F>) -> (r: Option<usize>)
        requires
            old(self).wf(),
        ensures
            final(self).wf(),
            r matches Some(fd) && is_alloc_slot(old(self)@, fd as int) && final(self)@ == fill_slot(
                old(self)@,
                fd as int,
                file_desc,
            ),
    {
        let len = self.fds.len();
        let mut i: usize = 0;
        while i < len
            invariant
                self.fds@ == old(self).fds@,
                fd_slots_wf(self.fds@),
                len == self.fds@.len(),
                i <= len,
                forall|j: int| 3 <= j < i ==> (#[trigger] self.fds@[j]) is Some,
            decreases len - i,
        {
            if i >= 3 && self.fds[i].is_none() {
                self.fds.set(i, Some(file_desc));
                return Some(i);
            }
            i = i + 1;
        }
        self.fds.push(Some(file_desc));
        Some(len)
    }

    /// The descriptor in slot `fd`, if that slot exists and is in use.
    pub fn get(&self, fd: usize) -> (r: Option<&FileDesc<F>>)
        ensures
            match r {
                Some(d) => lookup(self@, fd as int) == Some(*d),
                None => lookup(self@, fd as int) is None,
            },
    {
        if fd < self.fds.len() {
            match &self.fds[fd] {
                Some(d) => Some(d),
                None => None,
            }
        } else {
            None
        }
    }

    /// Frees slot `fd` and returns `true`, unless `fd` is a standard stream
    /// or not open, in which case nothing changes and it returns `false`.
    pub fn close(&mut self, fd: usize) -> (ok: bool)
        requires
            old(self).wf(),
        ensures
            final(self).wf(),
            ok == can_close(old(self)@, fd as int),
            final(self)@ == close_slot(old(self)@, fd as int),
    {
        if fd < 3 {
            return false;
        }
        if fd < self.fds.len() {
            if self.fds[fd].is_some() {
                self.fds.set(fd, None);
                return true;
            }
        }
        false
    }
}

impl<F> Default for FdTable<F> {
    fn default() -> (t: Self)
        ensures
            t.wf(),
            t@ == seq![
                Some(FileDesc::<F>::Stdin),
                Some(FileDesc::<F>::Stdout),
                Some(FileDesc::<F>::Stderr),
            ],
    {
        Self::new()
    }
}

} // verus!
