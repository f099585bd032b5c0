# userland

The user-space runtime of a small AArch64 micro-kernel, as a Verus library.

- `src/page_table.rs`: page attributes, their descriptor encoding, the
  addresses of entries in the recursively mapped page table, the walk that
  finds the entry mapping an address, and the traversal of all mapped pages.
  Both are step functions: the caller reads each entry and hands it back.
- `src/bitfield.rs`, `src/vm_descriptor.rs`: register bit fields and the
  fields of a page descriptor.
- `src/syscall.rs`: error codes and the reading of system call results.
- `src/fork.rs`, `src/page_fault.rs`, `src/ipc.rs`, `src/demo.rs`: the
  decisions of `fork`, the copy-on-write fault handler, IPC and the
  demonstration programs.
- `app/`: the program itself, which makes the system calls and the page
  table reads.
