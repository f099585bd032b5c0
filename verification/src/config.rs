//! Layout of the user address space. Addresses are 64-bit (`u64`): the
//! program runs on AArch64.
use vstd::prelude::*;

verus! {

/// Top of the window through which the page table maps itself.
pub const RECURSIVE_PAGE_TABLE_TOP: u64 = 0x80_0000_0000;

/// Bottom of the window through which the page table maps itself.
pub const RECURSIVE_PAGE_TABLE_BTM: u64 = 0x7f_c000_0000;

/// Top of the stack used while handling an exception.
pub const EXCEPTION_STACK_TOP: u64 = 0x7f_c000_0000;

/// Bottom (page) of the exception stack.
pub const EXCEPTION_STACK_BTM: u64 = 0x7f_bfff_f000;

/// Addresses at or above this bound are never visited by a page table traversal.
pub const TRAVERSE_LIMIT: u64 = 0x7f_8000_0000;

/// Top of the user stack.
pub const STACK_TOP: u64 = 0x7f_8000_0000;

/// Bottom (page) of the user stack.
pub const STACK_BTM: u64 = 0x7f_7fff_f000;

/// Size of a page in bytes.
pub const PAGE_SIZE: u64 = 4096;

/// Shift of the first-level index in a virtual address.
pub const PAGE_TABLE_L1_SHIFT: u64 = 30;

/// Shift of the second-level index in a virtual address.
pub const PAGE_TABLE_L2_SHIFT: u64 = 21;

/// Shift of the third-level index in a virtual address.
pub const PAGE_TABLE_L3_SHIFT: u64 = 12;

/// Log2 of the size of a page table entry.
pub const WORD_SHIFT: u64 = 3;

/// Size of a page table entry in bytes.
pub const WORD_SIZE: u64 = 8;

/// Number of entries in one page table (`PAGE_SIZE / WORD_SIZE`).
pub const ENTRIES_PER_TABLE: u64 = 512;

} // verus!
