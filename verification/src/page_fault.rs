//! What the page fault handler decides: which faults it serves, with which
//! attributes it maps the private copy, and where it places the scratch
//! page for the copy.
use vstd::prelude::*;
use crate::config::{EXCEPTION_STACK_BTM, EXCEPTION_STACK_TOP, PAGE_SIZE, STACK_BTM};
use crate::syscall::Syscall;
use crate::fork::cow_marked;
use crate::page_table::{attr_difference, attr_union, no_attr, page_table_lookup, PageTableEntryAttr};

verus! {

/// `a` made writable again and no longer copy-on-write
/// (`a + PTE_W - PTE_COW`).
pub open spec fn cow_restored(a: PageTableEntryAttr) -> PageTableEntryAttr {
    attr_difference(
        attr_union(a, PageTableEntryAttr { writable: true, ..no_attr() }),
        PageTableEntryAttr { copy_on_write: true, ..no_attr() },
    )
}

/// How the handler answers a page fault.
#[derive(Clone, Copy, Debug, PartialEq, Eq, Structural)]
pub enum FaultAction {
    /// The faulting address is not page aligned.
    Misaligned,
    /// No page is mapped at the faulting address.
    NotMapped,
    /// The page is mapped but not copy-on-write.
    NotCopyOnWrite,
    /// Copy the page and map the copy in its place with these attributes.
    CopyOnWrite(PageTableEntryAttr),
}

/// The handler's answer to a fault at `va`, where `pte` is what `query`
/// gives for `va`.
pub open spec fn fault_action(va: u64, pte: Option<PageTableEntryAttr>) -> FaultAction {
    if va % PAGE_SIZE != 0 {
        FaultAction::Misaligned
    } else {
        match pte {
            None => FaultAction::NotMapped,
            Some(a) => if !a.copy_on_write {
                FaultAction::NotCopyOnWrite
            } else {
                FaultAction::CopyOnWrite(cow_restored(a))
            },
        }
    }
}

/// The handler's answer to a fault at `va`, where `pte` is what `query`
/// gives for `va`; only a copy-on-write page is served, and its copy is
/// mapped writable and no longer copy-on-write.
pub fn page_fault_action(va: u64, pte: Option<PageTableEntryAttr>) -> (r: FaultAction)
    ensures
        r == fault_action(va, pte),
{
    if va % PAGE_SIZE != 0 {
        return FaultAction::Misaligned;
    }
    match pte {
        None => FaultAction::NotMapped,
        Some(a) => if !a.copy_on_write {
            FaultAction::NotCopyOnWrite
        } else {
            FaultAction::CopyOnWrite(a + PageTableEntryAttr::writable() - PageTableEntryAttr::copy_on_write())
        },
    }
}

/// How the handler answers each fault: a misaligned address is refused,
/// an unmapped page is refused, a mapped page that is not copy-on-write is
/// refused whatever its other permissions, and only a copy-on-write page is
/// copied, the copy being writable, not copy-on-write, and as executable
/// and as shared as the page.
pub proof fn lemma_fault_answers(va: u64, a: PageTableEntryAttr)
    ensures
        va % PAGE_SIZE != 0 ==> fault_action(va, None) == FaultAction::Misaligned && fault_action(va, Some(a))
            == FaultAction::Misaligned,
        va % PAGE_SIZE == 0 ==> fault_action(va, None) == FaultAction::NotMapped,
        va % PAGE_SIZE == 0 && !a.copy_on_write ==> fault_action(va, Some(a)) == FaultAction::NotCopyOnWrite,
        va % PAGE_SIZE == 0 && a.copy_on_write ==> fault_action(va, Some(a)) == FaultAction::CopyOnWrite(
            (PageTableEntryAttr { executable: a.executable, writable: true, copy_on_write: false, shared: a.shared }),
        ),
        fault_action(va, Some(a)) is CopyOnWrite ==> a.copy_on_write,
{
}

/// A private writable page that `fork` made copy-on-write is served by the
/// fault handler, whose copy gets back exactly the page's attributes.
pub proof fn lemma_fault_undoes_fork_marking(va: u64, a: PageTableEntryAttr)
    requires
        va % PAGE_SIZE == 0,
        a.writable,
        !a.copy_on_write,
    ensures
        cow_restored(cow_marked(a)) == a,
        fault_action(va, Some(cow_marked(a))) == FaultAction::CopyOnWrite(a),
{
}

/// The calls that installing a fault handler makes first, where
/// `installed` is the handler installed so far (0 for none): the first
/// installation backs the caller's exception stack with a writable page and
/// has the kernel enter `trampoline` on it when the caller faults; a later
/// one makes no call.
pub fn handler_install_calls(installed: usize, trampoline: usize) -> (v: Vec<Syscall>)
    ensures
        v@ == (if installed == 0 {
            seq![
                Syscall::MemAlloc { pid: 0, va: EXCEPTION_STACK_BTM, attr: PageTableEntryAttr { writable: true, ..no_attr() } },
                Syscall::SetExceptionHandler { pid: 0, entry: trampoline, stack_top: EXCEPTION_STACK_TOP },
            ]
        } else {
            Seq::empty()
        }),
{
    let mut v: Vec<Syscall> = Vec::new();
    if installed == 0 {
        v.push(Syscall::MemAlloc { pid: 0, va: EXCEPTION_STACK_BTM, attr: PageTableEntryAttr::writable() });
        v.push(Syscall::SetExceptionHandler { pid: 0, entry: trampoline, stack_top: EXCEPTION_STACK_TOP });
    }
    v
}

/// One piece of the work that serves a copy-on-write fault.
#[derive(Clone, Copy, Debug, PartialEq, Eq, Structural)]
pub enum FaultWork {
    /// Make this system call.
    Call(Syscall),
    /// Copy the page at `from` to the page at `to`.
    CopyPage { from: u64, to: u64 },
}

/// The work that serves a copy-on-write fault at `va`, in order, once the
/// free page `scratch` was found and `attr` is what the copy is mapped
/// with: back `scratch` with a writable page, copy the faulting page into
/// it, map it in place of the faulting page with `attr`, and unmap it from
/// `scratch`.
pub fn fault_copy_work(va: u64, scratch: u64, attr: PageTableEntryAttr) -> (v: Vec<FaultWork>)
    ensures
        v@ == seq![
            FaultWork::Call(Syscall::MemAlloc { pid: 0, va: scratch, attr: PageTableEntryAttr { writable: true, ..no_attr() } }),
            FaultWork::CopyPage { from: va, to: scratch },
            FaultWork::Call(Syscall::MemMap { src_pid: 0, src_va: scratch, dst_pid: 0, dst_va: va, attr }),
            FaultWork::Call(Syscall::MemUnmap { pid: 0, va: scratch }),
        ],
{
    let mut v: Vec<FaultWork> = Vec::new();
    v.push(FaultWork::Call(Syscall::MemAlloc { pid: 0, va: scratch, attr: PageTableEntryAttr::writable() }));
    v.push(FaultWork::CopyPage { from: va, to: scratch });
    v.push(FaultWork::Call(Syscall::MemMap { src_pid: 0, src_va: scratch, dst_pid: 0, dst_va: va, attr }));
    v.push(FaultWork::Call(Syscall::MemUnmap { pid: 0, va: scratch }));
    v
}

/// What the search for a free scratch page does after a probe.
#[derive(Clone, Copy, Debug, PartialEq, Eq, Structural)]
pub enum ScratchStep {
    /// The probed page is free: use it.
    Found(u64),
    /// The probed page is mapped: probe this one next.
    Probe(u64),
    /// The probed page is mapped and no page lies below it.
    Exhausted,
}

/// The first page that the search probes: the page below the stack.
pub fn scratch_search_start() -> (va: u64)
    ensures
        va == STACK_BTM - PAGE_SIZE,
        va % PAGE_SIZE == 0,
{
    STACK_BTM - PAGE_SIZE
}

/// The search's next step after probing `va`, which `mapped` tells whether
/// it is mapped.
pub fn scratch_search_step(va: u64, mapped: bool) -> (r: ScratchStep)
    ensures
        r == (if !mapped {
            ScratchStep::Found(va)
        } else if va >= PAGE_SIZE {
            ScratchStep::Probe((va - PAGE_SIZE) as u64)
        } else {
            ScratchStep::Exhausted
        }),
{
    if !mapped {
        ScratchStep::Found(va)
    } else if va >= PAGE_SIZE {
        ScratchStep::Probe(va - PAGE_SIZE)
    } else {
        ScratchStep::Exhausted
    }
}

/// The result of a search that probes `va` and the pages below it, where
/// `mapped` tells which pages are mapped.
pub open spec fn scratch_search(mapped: spec_fn(u64) -> bool, va: u64) -> Option<u64>
    decreases va,
{
    if !mapped(va) {
        Some(va)
    } else if va >= PAGE_SIZE {
        scratch_search(mapped, (va - PAGE_SIZE) as u64)
    } else {
        None
    }
}

proof fn lemma_scratch_search_from(mapped: spec_fn(u64) -> bool, va: u64)
    requires
        va % PAGE_SIZE == 0,
    ensures
        scratch_search(mapped, va) matches Some(s) ==> s % PAGE_SIZE == 0 && s <= va && !mapped(s)
            && forall|v: u64| s < v <= va && v % PAGE_SIZE == 0 ==> #[trigger] mapped(v),
        scratch_search(mapped, va) is None ==> forall|v: u64|
            v <= va && v % PAGE_SIZE == 0 ==> #[trigger] mapped(v),
    decreases va,
{
    if mapped(va) && va >= PAGE_SIZE {
        lemma_scratch_search_from(mapped, (va - PAGE_SIZE) as u64);
    }
}

/// Whether `mem` maps the page at `va`.
pub open spec fn mapped_in(mem: spec_fn(u64) -> u64) -> spec_fn(u64) -> bool {
    |va: u64| page_table_lookup(mem, va) is Some
}

/// The scratch page that the handler finds is the highest free page below
/// the stack: it is page aligned and unmapped, and every page between it
/// and the stack is mapped; where the search finds none, every page below
/// the stack is mapped.
pub proof fn lemma_scratch_page_is_highest_free(mem: spec_fn(u64) -> u64)
    ensures
        scratch_search(mapped_in(mem), (STACK_BTM - PAGE_SIZE) as u64) matches Some(s) ==> s % PAGE_SIZE
            == 0 && s < STACK_BTM && page_table_lookup(mem, s) is None && forall|v: u64|
            s < v < STACK_BTM && v % PAGE_SIZE == 0 ==> #[trigger] page_table_lookup(mem, v) is Some,
        scratch_search(mapped_in(mem), (STACK_BTM - PAGE_SIZE) as u64) is None ==> forall|v: u64|
            v < STACK_BTM && v % PAGE_SIZE == 0 ==> #[trigger] page_table_lookup(mem, v) is Some,
{
    let m = mapped_in(mem);
    let top = (STACK_BTM - PAGE_SIZE) as u64;
    lemma_scratch_search_from(m, top);
    match scratch_search(m, top) {
        Some(s) => {
            assert(!m(s));
            assert forall|v: u64| s < v < STACK_BTM && v % PAGE_SIZE == 0 implies #[trigger] page_table_lookup(
                mem,
                v,
            ) is Some by {
                assert(v <= top);
                assert(m(v));
            }
        },
        None => {
            assert forall|v: u64| v < STACK_BTM && v % PAGE_SIZE == 0 implies #[trigger] page_table_lookup(
                mem,
                v,
            ) is Some by {
                assert(v <= top);
                assert(m(v));
            }
        },
    }
}

} // verus!
