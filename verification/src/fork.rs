//! What `fork` decides: how each page of the parent is shared with the
//! child, and what `fork` returns.
use vstd::prelude::*;
use crate::page_table::{attr_difference, attr_union, no_attr, PageTableEntryAttr};
use crate::config::{EXCEPTION_STACK_BTM, EXCEPTION_STACK_TOP};
use crate::syscall::{ProcessStatus, Syscall, SystemCallError};

verus! {

/// A `mem_map` system call: map the page at `src_va` of process `src_pid`
/// at `dst_va` of process `dst_pid` with `attr` (pid 0 is the caller).
#[derive(Clone, Copy, Debug, PartialEq, Eq, Structural)]
pub struct MapRequest {
    pub src_pid: u16,
    pub src_va: u64,
    pub dst_pid: u16,
    pub dst_va: u64,
    pub attr: PageTableEntryAttr,
}

/// `a` made read-only and copy-on-write (`a - PTE_W + PTE_COW`).
pub open spec fn cow_marked(a: PageTableEntryAttr) -> PageTableEntryAttr {
    attr_union(
        attr_difference(a, PageTableEntryAttr { writable: true, ..no_attr() }),
        PageTableEntryAttr { copy_on_write: true, ..no_attr() },
    )
}

/// The mappings that give child `pid` the parent's page at `va`: a shared
/// page is mapped as it is; a private writable page that is not yet
/// copy-on-write becomes copy-on-write and read-only in the child and in
/// the parent; any other page is mapped as it is.
pub open spec fn duplicate_plan(pid: u16, va: u64, pte: PageTableEntryAttr) -> Seq<MapRequest> {
    if pte.shared {
        seq![MapRequest { src_pid: 0, src_va: va, dst_pid: pid, dst_va: va, attr: pte }]
    } else if pte.writable && !pte.copy_on_write {
        seq![
            MapRequest { src_pid: 0, src_va: va, dst_pid: pid, dst_va: va, attr: cow_marked(pte) },
            MapRequest { src_pid: 0, src_va: va, dst_pid: 0, dst_va: va, attr: cow_marked(pte) },
        ]
    } else {
        seq![MapRequest { src_pid: 0, src_va: va, dst_pid: pid, dst_va: va, attr: pte }]
    }
}

/// The `mem_map` calls, in order, that share the parent's page at `va`,
/// mapped with `pte`, with child `pid`.
pub fn duplicate_page(pid: u16, va: u64, pte: PageTableEntryAttr) -> (r: Vec<MapRequest>)
    ensures
        r@ == duplicate_plan(pid, va, pte),
{
    let mut r: Vec<MapRequest> = Vec::new();
    if pte.shared {
        r.push(MapRequest { src_pid: 0, src_va: va, dst_pid: pid, dst_va: va, attr: pte });
    } else if pte.writable && !pte.copy_on_write {
        let cow = pte - PageTableEntryAttr::writable() + PageTableEntryAttr::copy_on_write();
        r.push(MapRequest { src_pid: 0, src_va: va, dst_pid: pid, dst_va: va, attr: cow });
        r.push(MapRequest { src_pid: 0, src_va: va, dst_pid: 0, dst_va: va, attr: cow });
    } else {
        r.push(MapRequest { src_pid: 0, src_va: va, dst_pid: pid, dst_va: va, attr: pte });
    }
    r
}

/// After `fork` shares a page, parent and child never both hold it writable
/// unless it is shared or was already copy-on-write: every mapping made of a
/// private page that was writable and not copy-on-write is read-only and
/// copy-on-write, and every mapping keeps the page's address, executability
/// and sharing.
pub proof fn lemma_duplicate_never_shares_writable(pid: u16, va: u64, pte: PageTableEntryAttr)
    ensures
        forall|i: int| 0 <= i < duplicate_plan(pid, va, pte).len() ==> {
            let m = #[trigger] duplicate_plan(pid, va, pte)[i];
            &&& m.src_pid == 0 && m.src_va == va && m.dst_va == va
            &&& m.attr.executable == pte.executable && m.attr.shared == pte.shared
            &&& (m.attr.writable ==> pte.shared || pte.copy_on_write)
            &&& (!pte.shared && pte.writable && !pte.copy_on_write ==> !m.attr.writable && m.attr.copy_on_write)
        },
        exists|i: int| 0 <= i < duplicate_plan(pid, va, pte).len()
            && (#[trigger] duplicate_plan(pid, va, pte)[i]).dst_pid == pid,
{
    assert(duplicate_plan(pid, va, pte)[0].dst_pid == pid);
}

/// The mappings that share the page at `va` with child `pid`: a shared
/// page goes to the child once, as it is; a private page that is writable
/// and not copy-on-write goes first to the child and then back to the
/// caller (pid 0), both times read-only and copy-on-write, keeping its
/// executability; any other page goes to the child once, as it is.
pub proof fn lemma_duplicate_plan_mappings(pid: u16, va: u64, pte: PageTableEntryAttr)
    ensures
        ({
            let plan = duplicate_plan(pid, va, pte);
            let marked = PageTableEntryAttr {
                executable: pte.executable,
                writable: false,
                copy_on_write: true,
                shared: false,
            };
            if !pte.shared && pte.writable && !pte.copy_on_write {
                &&& plan.len() == 2
                &&& plan[0] == MapRequest { src_pid: 0, src_va: va, dst_pid: pid, dst_va: va, attr: marked }
                &&& plan[1] == MapRequest { src_pid: 0, src_va: va, dst_pid: 0, dst_va: va, attr: marked }
            } else {
                &&& plan.len() == 1
                &&& plan[0] == MapRequest { src_pid: 0, src_va: va, dst_pid: pid, dst_va: va, attr: pte }
            }
        }),
{
}

/// What `fork` does once `process_alloc` answered.
#[derive(Clone, Copy, Debug, PartialEq, Eq, Structural)]
pub enum ForkStep {
    /// This is the new child: set up its own IPC record, and nothing else.
    ChildSetup,
    /// This is the parent of child `pid`: share every mapped page with it
    /// (`duplicate_page` for each page that `traverse` visits), then make
    /// the calls of `child_setup_calls(pid, ..)`, in order.
    ShareWith(u16),
    /// No child was made: report the error, and set nothing up.
    Report(SystemCallError),
}

/// The spec of `fork_plan`.
pub open spec fn fork_step(alloc: Result<u16, SystemCallError>) -> ForkStep {
    match alloc {
        Ok(pid) => if pid == 0 {
            ForkStep::ChildSetup
        } else {
            ForkStep::ShareWith(pid)
        },
        Err(e) => ForkStep::Report(e),
    }
}

/// What `fork` does for the result `alloc` of `process_alloc`.
pub fn fork_plan(alloc: &Result<u16, SystemCallError>) -> (s: ForkStep)
    ensures
        s == fork_step(*alloc),
{
    match alloc {
        Ok(pid) => if *pid == 0 {
            ForkStep::ChildSetup
        } else {
            ForkStep::ShareWith(*pid)
        },
        Err(e) => ForkStep::Report(*e),
    }
}

/// The calls that prepare child `pid` once its pages are shared, in order:
/// back its exception stack with a writable page, enter it at
/// `handler_entry` on that stack when it faults, and last make it runnable.
pub fn child_setup_calls(pid: u16, handler_entry: usize) -> (v: Vec<Syscall>)
    ensures
        v@ == seq![
            Syscall::MemAlloc { pid, va: EXCEPTION_STACK_BTM, attr: PageTableEntryAttr { writable: true, ..no_attr() } },
            Syscall::SetExceptionHandler { pid, entry: handler_entry, stack_top: EXCEPTION_STACK_TOP },
            Syscall::SetStatus { pid, status: ProcessStatus::PsRunnable },
        ],
{
    let mut v: Vec<Syscall> = Vec::new();
    v.push(Syscall::MemAlloc { pid, va: EXCEPTION_STACK_BTM, attr: PageTableEntryAttr::writable() });
    v.push(Syscall::SetExceptionHandler { pid, entry: handler_entry, stack_top: EXCEPTION_STACK_TOP });
    v.push(Syscall::SetStatus { pid, status: ProcessStatus::PsRunnable });
    v
}

/// `fork` sets up a child only where `process_alloc` made one: the child
/// itself only sets up its IPC record, the parent shares pages with the
/// child it was given, whose id is not 0, and returns that id, and on an
/// error nothing is shared or set up and `fork` returns -1.
pub proof fn lemma_fork_sets_up_only_a_made_child(alloc: Result<u16, SystemCallError>)
    ensures
        alloc == Ok::<u16, SystemCallError>(0) <==> fork_step(alloc) == ForkStep::ChildSetup,
        fork_step(alloc) matches ForkStep::ShareWith(pid) ==> pid != 0 && alloc == Ok::<
            u16,
            SystemCallError,
        >(pid),
        alloc is Err <==> fork_step(alloc) is Report,
{
}

/// What `fork` returns for the result of `process_alloc`: 0 in the child,
/// the child's id in the parent, -1 on failure.
pub fn fork_result(alloc: &Result<u16, SystemCallError>) -> (r: i32)
    ensures
        r == (match alloc {
            Ok(pid) => *pid as i32,
            Err(_) => -1i32,
        }),
        0 <= r <= 65535 || r == -1,
{
    match alloc {
        Ok(pid) => if *pid == 0 {
            0
        } else {
            *pid as i32
        },
        Err(_) => -1,
    }
}

} // verus!
