//! System call numbers' results: the errors the kernel reports and how each
//! raw return value is read.
use vstd::prelude::*;
use crate::page_table::{encode_attr, ArchPageTableEntryAttr, PageTableEntryAttr};

verus! {

/// An error that the kernel reports for a system call.
#[derive(Clone, Copy, Debug, PartialEq, Eq, Structural)]
pub enum SystemCallError {
    ScePidNotFound,
    ScePidNoParent,
    ScePidParentNotMatched,
    SceMemVaExceedLimit,
    SceMemSrcVaNotMapped,
    SceMemPageTableError,
    SceProcessDirectoryNone,
    SceCurrentProcessNone,
    SceProcessPoolError,
    SceIpcNotReceiving,
    SceUnknownError,
}

/// The error that the kernel reports with code `n`.
pub open spec fn error_of_code(n: int) -> SystemCallError {
    if n == 1 {
        SystemCallError::ScePidNotFound
    } else if n == 2 {
        SystemCallError::ScePidNoParent
    } else if n == 3 {
        SystemCallError::ScePidParentNotMatched
    } else if n == 4 {
        SystemCallError::SceMemVaExceedLimit
    } else if n == 5 {
        SystemCallError::SceMemSrcVaNotMapped
    } else if n == 6 {
        SystemCallError::SceMemPageTableError
    } else if n == 7 {
        SystemCallError::SceProcessDirectoryNone
    } else if n == 8 {
        SystemCallError::SceCurrentProcessNone
    } else if n == 9 {
        SystemCallError::SceProcessPoolError
    } else if n == 10 {
        SystemCallError::SceIpcNotReceiving
    } else {
        SystemCallError::SceUnknownError
    }
}

impl SystemCallError {
    /// The error's number.
    pub open spec fn spec_code(self) -> int {
        match self {
            SystemCallError::ScePidNotFound => 1,
            SystemCallError::ScePidNoParent => 2,
            SystemCallError::ScePidParentNotMatched => 3,
            SystemCallError::SceMemVaExceedLimit => 4,
            SystemCallError::SceMemSrcVaNotMapped => 5,
            SystemCallError::SceMemPageTableError => 6,
            SystemCallError::SceProcessDirectoryNone => 7,
            SystemCallError::SceCurrentProcessNone => 8,
            SystemCallError::SceProcessPoolError => 9,
            SystemCallError::SceIpcNotReceiving => 10,
            SystemCallError::SceUnknownError => 11,
        }
    }

    /// The error's number.
    pub fn code(&self) -> (n: isize)
        ensures
            n == self.spec_code(),
    {
        match self {
            SystemCallError::ScePidNotFound => 1,
            SystemCallError::ScePidNoParent => 2,
            SystemCallError::ScePidParentNotMatched => 3,
            SystemCallError::SceMemVaExceedLimit => 4,
            SystemCallError::SceMemSrcVaNotMapped => 5,
            SystemCallError::SceMemPageTableError => 6,
            SystemCallError::SceProcessDirectoryNone => 7,
            SystemCallError::SceCurrentProcessNone => 8,
            SystemCallError::SceProcessPoolError => 9,
            SystemCallError::SceIpcNotReceiving => 10,
            SystemCallError::SceUnknownError => 11,
        }
    }
}

/// Every error but the unknown one is read back from its own number, and
/// every number from 1 to 10 names the error with that number.
pub proof fn lemma_error_codes(e: SystemCallError, n: int)
    ensures
        e != SystemCallError::SceUnknownError ==> error_of_code(e.spec_code()) == e,
        1 <= n <= 10 ==> error_of_code(n).spec_code() == n,
        !(1 <= n <= 10) ==> error_of_code(n) == SystemCallError::SceUnknownError,
{
}

/// The number of each error, as the kernel reports it.
pub proof fn lemma_error_numbers()
    ensures
        error_of_code(1) == SystemCallError::ScePidNotFound,
        error_of_code(2) == SystemCallError::ScePidNoParent,
        error_of_code(3) == SystemCallError::ScePidParentNotMatched,
        error_of_code(4) == SystemCallError::SceMemVaExceedLimit,
        error_of_code(5) == SystemCallError::SceMemSrcVaNotMapped,
        error_of_code(6) == SystemCallError::SceMemPageTableError,
        error_of_code(7) == SystemCallError::SceProcessDirectoryNone,
        error_of_code(8) == SystemCallError::SceCurrentProcessNone,
        error_of_code(9) == SystemCallError::SceProcessPoolError,
        error_of_code(10) == SystemCallError::SceIpcNotReceiving,
        SystemCallError::SceUnknownError.spec_code() == 11,
{
}

/// The status of a process, as the scheduler sees it.
#[derive(Clone, Copy, Debug, PartialEq, Eq, Structural)]
pub enum ProcessStatus {
    PsRunnable,
    PsNotRunnable,
}

impl ProcessStatus {
    /// The status's number as a system call argument.
    pub fn code(&self) -> (n: usize)
        ensures
            n == (match self {
                ProcessStatus::PsRunnable => 1usize,
                ProcessStatus::PsNotRunnable => 2usize,
            }),
    {
        match self {
            ProcessStatus::PsRunnable => 1,
            ProcessStatus::PsNotRunnable => 2,
        }
    }
}

/// A memory or process system call, with its arguments (pid 0 is the
/// caller).
#[derive(Clone, Copy, Debug, PartialEq, Eq, Structural)]
pub enum Syscall {
    /// `mem_alloc`: back the page at `va` of `pid` with fresh memory.
    MemAlloc { pid: u16, va: u64, attr: PageTableEntryAttr },
    /// `process_set_exception_handler`: enter `pid` at `entry`, on the stack
    /// that ends at `stack_top`, when it faults.
    SetExceptionHandler { pid: u16, entry: usize, stack_top: u64 },
    /// `process_set_status`.
    SetStatus { pid: u16, status: ProcessStatus },
    /// `mem_map`: map the page at `src_va` of `src_pid` at `dst_va` of
    /// `dst_pid` with `attr`.
    MemMap { src_pid: u16, src_va: u64, dst_pid: u16, dst_va: u64, attr: PageTableEntryAttr },
    /// `mem_unmap`: remove the page at `va` of `pid`.
    MemUnmap { pid: u16, va: u64 },
}

/// The failure that the kernel reports with code `n`.
pub fn num2err<T>(n: isize) -> (r: Result<T, SystemCallError>)
    ensures
        r == Err::<T, SystemCallError>(error_of_code(n as int)),
{
    Err(
        match n {
            1 => SystemCallError::ScePidNotFound,
            2 => SystemCallError::ScePidNoParent,
            3 => SystemCallError::ScePidParentNotMatched,
            4 => SystemCallError::SceMemVaExceedLimit,
            5 => SystemCallError::SceMemSrcVaNotMapped,
            6 => SystemCallError::SceMemPageTableError,
            7 => SystemCallError::SceProcessDirectoryNone,
            8 => SystemCallError::SceCurrentProcessNone,
            9 => SystemCallError::SceProcessPoolError,
            10 => SystemCallError::SceIpcNotReceiving,
            _ => SystemCallError::SceUnknownError,
        },
    )
}

/// The result of a system call that returns 0 on success and an error
/// code otherwise.
pub fn decode_status(i: isize) -> (r: Result<(), SystemCallError>)
    ensures
        r == (if i == 0 { Ok(()) } else { Err(error_of_code(i as int)) }),
{
    if i == 0 {
        Ok(())
    } else {
        num2err(i)
    }
}

/// The result of `process_alloc`: a process id when the kernel returns a
/// number that is not negative (cut to 16 bits), else the error numbered
/// `-i - 1`.
pub fn decode_process_alloc(i: isize) -> (r: Result<u16, SystemCallError>)
    ensures
        i >= 0 ==> r == Ok::<u16, SystemCallError>((i as int % 0x1_0000) as u16),
        i < 0 ==> r == Err::<u16, SystemCallError>(error_of_code(-1 - i)),
{
    if i >= 0 {
        let u = i as usize;
        let p = u as u16;
        assert(p == u % 0x1_0000) by (bit_vector)
            requires p == u as u16;
        Ok(p)
    } else {
        // The kernel returns `!code` (`usize::MAX - code` as a signed word).
        num2err(-1 - i)
    }
}

/// The attribute argument of `mem_alloc`, `mem_map` and `ipc_can_send`:
/// the descriptor bits of `attr`.
pub fn attr_argument(attr: PageTableEntryAttr) -> (a: usize)
    ensures
        a == encode_attr(attr) as usize,
{
    proof {
        ArchPageTableEntryAttr::lemma_bits(encode_attr(attr));
    }
    ArchPageTableEntryAttr::from(attr).to_usize()
}

} // verus!
