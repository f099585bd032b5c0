//! User-space runtime of a small AArch64 micro-kernel: page table
//! attributes and their hardware encoding, walks over the recursively
//! mapped page table, system call results, and the decisions taken by
//! `fork`, the copy-on-write fault handler, IPC and the demonstration
//! programs. Reading the page table and making system calls is left to the
//! caller, which feeds what it reads back into the functions here.

pub mod bitfield;
pub mod config;
pub mod demo;
pub mod fork;
pub mod ipc;
pub mod page_fault;
pub mod page_table;
pub mod syscall;
pub mod vm_descriptor;
