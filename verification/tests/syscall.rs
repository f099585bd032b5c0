use userland::syscall::{
    attr_argument, decode_process_alloc, decode_status, num2err, ProcessStatus, SystemCallError,
};
use userland::page_table::PageTableEntryAttr;

const ALL: [SystemCallError; 11] = [
    SystemCallError::ScePidNotFound,
    SystemCallError::ScePidNoParent,
    SystemCallError::ScePidParentNotMatched,
    SystemCallError::SceMemVaExceedLimit,
    SystemCallError::SceMemSrcVaNotMapped,
    SystemCallError::SceMemPageTableError,
    SystemCallError::SceProcessDirectoryNone,
    SystemCallError::SceCurrentProcessNone,
    SystemCallError::SceProcessPoolError,
    SystemCallError::SceIpcNotReceiving,
    SystemCallError::SceUnknownError,
];

#[test]
fn each_code_names_its_error() {
    for (i, e) in ALL.iter().enumerate() {
        let n = i as isize + 1;
        assert_eq!(e.code(), n);
        let r: Result<(), SystemCallError> = num2err(n);
        assert_eq!(r, Err(*e));
    }
}

#[test]
fn unknown_codes() {
    for n in [0isize, 11, 12, -1, isize::MAX, isize::MIN] {
        let r: Result<u8, SystemCallError> = num2err(n);
        assert_eq!(r, Err(SystemCallError::SceUnknownError));
    }
}

#[test]
fn status_results() {
    assert_eq!(decode_status(0), Ok(()));
    assert_eq!(decode_status(4), Err(SystemCallError::SceMemVaExceedLimit));
    assert_eq!(decode_status(10), Err(SystemCallError::SceIpcNotReceiving));
    assert_eq!(decode_status(-3), Err(SystemCallError::SceUnknownError));
}

#[test]
fn process_alloc_results() {
    assert_eq!(decode_process_alloc(0), Ok(0));
    assert_eq!(decode_process_alloc(5), Ok(5));
    assert_eq!(decode_process_alloc(70000), Ok(4464));
    // A failure comes back as the bitwise complement of its code.
    assert_eq!(decode_process_alloc(-2), Err(SystemCallError::ScePidNotFound));
    assert_eq!(decode_process_alloc(!9), Err(SystemCallError::SceProcessPoolError));
    assert_eq!(decode_process_alloc(-11), Err(SystemCallError::SceIpcNotReceiving));
    assert_eq!(decode_process_alloc(-1), Err(SystemCallError::SceUnknownError));
    assert_eq!(decode_process_alloc(isize::MIN), Err(SystemCallError::SceUnknownError));
}

#[test]
fn status_and_attribute_arguments() {
    assert_eq!(ProcessStatus::PsRunnable.code(), 1);
    assert_eq!(ProcessStatus::PsNotRunnable.code(), 2);
    assert_eq!(attr_argument(PageTableEntryAttr::writable()), 0x0040_0000_0000_0040);
    assert_eq!(attr_argument(PageTableEntryAttr::executable() + PageTableEntryAttr::shared()), 0x0100_0000_0000_00c0);
}
