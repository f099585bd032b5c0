use userland::fork::{child_setup_calls, duplicate_page, fork_plan, fork_result, ForkStep, MapRequest};
use userland::page_table::PageTableEntryAttr;
use userland::syscall::{ProcessStatus, Syscall, SystemCallError};

fn attr(executable: bool, writable: bool, copy_on_write: bool, shared: bool) -> PageTableEntryAttr {
    PageTableEntryAttr { executable, writable, copy_on_write, shared }
}

fn map(dst_pid: u16, va: u64, attr: PageTableEntryAttr) -> MapRequest {
    MapRequest { src_pid: 0, src_va: va, dst_pid, dst_va: va, attr }
}

#[test]
fn shared_page_is_mapped_as_is() {
    let a = attr(false, true, false, true);
    assert_eq!(duplicate_page(7, 0x1000, a), vec![map(7, 0x1000, a)]);
}

#[test]
fn private_writable_page_becomes_copy_on_write_in_both() {
    let a = attr(true, true, false, false);
    let c = attr(true, false, true, false);
    assert_eq!(duplicate_page(3, 0x4000, a), vec![map(3, 0x4000, c), map(0, 0x4000, c)]);
}

#[test]
fn other_pages_are_mapped_as_is() {
    for a in [attr(true, false, false, false), attr(false, false, true, false), attr(false, true, true, false)] {
        assert_eq!(duplicate_page(2, 0x2000, a), vec![map(2, 0x2000, a)]);
    }
}

#[test]
fn no_private_page_stays_writable_in_both() {
    for i in 0..16u32 {
        let a = attr(i & 1 != 0, i & 2 != 0, i & 4 != 0, i & 8 != 0);
        let plan = duplicate_page(9, 0x7000, a);
        assert!(plan.iter().any(|m| m.dst_pid == 9));
        for m in &plan {
            assert!(!m.attr.writable || a.shared || a.copy_on_write);
            assert_eq!(m.attr.executable, a.executable);
            assert_eq!(m.attr.shared, a.shared);
        }
    }
}

#[test]
fn fork_return_values() {
    assert_eq!(fork_result(&Ok(0)), 0);
    assert_eq!(fork_result(&Ok(12)), 12);
    assert_eq!(fork_result(&Ok(u16::MAX)), 65535);
    assert_eq!(fork_result(&Err(SystemCallError::SceProcessPoolError)), -1);
}

#[test]
fn fork_steps_for_each_alloc_result() {
    assert_eq!(fork_plan(&Ok(0)), ForkStep::ChildSetup);
    assert_eq!(fork_plan(&Ok(4)), ForkStep::ShareWith(4));
    assert_eq!(fork_plan(&Ok(u16::MAX)), ForkStep::ShareWith(u16::MAX));
    assert_eq!(
        fork_plan(&Err(SystemCallError::SceProcessPoolError)),
        ForkStep::Report(SystemCallError::SceProcessPoolError)
    );
}

#[test]
fn child_setup_calls_in_order() {
    assert_eq!(
        child_setup_calls(6, 0x4_0000),
        vec![
            Syscall::MemAlloc { pid: 6, va: 0x7f_bfff_f000, attr: PageTableEntryAttr::writable() },
            Syscall::SetExceptionHandler { pid: 6, entry: 0x4_0000, stack_top: 0x7f_c000_0000 },
            Syscall::SetStatus { pid: 6, status: ProcessStatus::PsRunnable },
        ]
    );
}
