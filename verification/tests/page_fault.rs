use userland::fork::duplicate_page;
use userland::page_fault::{fault_copy_work, handler_install_calls, FaultWork, page_fault_action, scratch_search_start, scratch_search_step, FaultAction, ScratchStep};
use userland::page_table::PageTableEntryAttr;
use userland::syscall::Syscall;

fn attr(executable: bool, writable: bool, copy_on_write: bool, shared: bool) -> PageTableEntryAttr {
    PageTableEntryAttr { executable, writable, copy_on_write, shared }
}

#[test]
fn fault_answers() {
    assert_eq!(page_fault_action(0x1001, Some(PageTableEntryAttr::copy_on_write())), FaultAction::Misaligned);
    assert_eq!(page_fault_action(0x1000, None), FaultAction::NotMapped);
    assert_eq!(page_fault_action(0x1000, Some(PageTableEntryAttr::writable())), FaultAction::NotCopyOnWrite);
    assert_eq!(
        page_fault_action(0x1000, Some(attr(true, false, true, false))),
        FaultAction::CopyOnWrite(attr(true, true, false, false))
    );
}

#[test]
fn fault_undoes_the_marking_of_fork() {
    for i in 0..4u32 {
        let a = attr(i & 1 != 0, true, false, i & 2 != 0);
        for m in duplicate_page(5, 0x3000, a) {
            if !a.shared {
                assert_eq!(page_fault_action(0x3000, Some(m.attr)), FaultAction::CopyOnWrite(a));
            }
        }
    }
}

#[test]
fn scratch_search_walks_down_from_below_the_stack() {
    let start = scratch_search_start();
    assert_eq!(start, 0x7f_7fff_e000);
    assert_eq!(scratch_search_step(start, false), ScratchStep::Found(start));
    assert_eq!(scratch_search_step(start, true), ScratchStep::Probe(0x7f_7fff_d000));
    assert_eq!(scratch_search_step(0x1000, true), ScratchStep::Probe(0));
    assert_eq!(scratch_search_step(0, true), ScratchStep::Exhausted);
}

#[test]
fn scratch_search_finds_highest_free_page() {
    let mapped = |va: u64| va >= 0x7f_7fff_a000;
    let mut va = scratch_search_start();
    let found = loop {
        match scratch_search_step(va, mapped(va)) {
            ScratchStep::Found(v) => break Some(v),
            ScratchStep::Probe(v) => va = v,
            ScratchStep::Exhausted => break None,
        }
    };
    assert_eq!(found, Some(0x7f_7fff_9000));
}

#[test]
fn handler_installed_once() {
    assert_eq!(
        handler_install_calls(0, 0x8000),
        vec![
            Syscall::MemAlloc { pid: 0, va: 0x7f_bfff_f000, attr: PageTableEntryAttr::writable() },
            Syscall::SetExceptionHandler { pid: 0, entry: 0x8000, stack_top: 0x7f_c000_0000 },
        ]
    );
    assert!(handler_install_calls(0x1234, 0x8000).is_empty());
}

#[test]
fn fault_work_in_order() {
    let a = attr(true, true, false, false);
    assert_eq!(
        fault_copy_work(0x5000, 0x7f_7fff_e000, a),
        vec![
            FaultWork::Call(Syscall::MemAlloc { pid: 0, va: 0x7f_7fff_e000, attr: PageTableEntryAttr::writable() }),
            FaultWork::CopyPage { from: 0x5000, to: 0x7f_7fff_e000 },
            FaultWork::Call(Syscall::MemMap { src_pid: 0, src_va: 0x7f_7fff_e000, dst_pid: 0, dst_va: 0x5000, attr: a }),
            FaultWork::Call(Syscall::MemUnmap { pid: 0, va: 0x7f_7fff_e000 }),
        ]
    );
}
