//! Inter-process communication: the per-process record that the kernel
//! fills in, where it lies, and how a sender reacts to the kernel's answer.
use vstd::prelude::*;
use crate::page_table::ArchPageTableEntryAttr;
use crate::syscall::SystemCallError;

verus! {

/// The IPC record of a process, as the kernel lays it out in the IPC list.
#[derive(Clone, Copy, Debug, PartialEq, Eq, Structural)]
pub struct InterProcessComm {
    pub index: u16,
    pub ipc_from: u16,
    pub ipc_receiving: bool,
    pub ipc_value: usize,
    pub ipc_dst_addr: usize,
    pub ipc_dst_attr: usize,
}

/// The address of the IPC record of process `pid` in a list of records of
/// `record_size` bytes that starts at `list_btm` (process ids start at 1).
pub fn ipc_record_address(list_btm: u64, record_size: u64, pid: u16) -> (a: u64)
    requires
        pid >= 1,
        list_btm + record_size * (pid - 1) <= u64::MAX,
    ensures
        a == list_btm + record_size * (pid - 1),
{
    let index = (pid - 1) as u64;
    assert(record_size * index <= u64::MAX - list_btm) by (nonlinear_arith)
        requires
            list_btm + record_size * (pid - 1) <= u64::MAX,
            index == pid - 1,
    ;
    list_btm + record_size * index
}

/// Where the caller's own IPC record lies (0 until it is set).
#[derive(Clone, Copy, Debug, PartialEq, Eq, Structural)]
pub struct SelfIpc {
    record: u64,
}

impl SelfIpc {
    /// The record's address.
    pub closed spec fn record(self) -> u64 {
        self.record
    }

    /// No record set yet.
    pub fn new() -> (s: SelfIpc)
        ensures
            s.record() == 0,
    {
        SelfIpc { record: 0 }
    }

    /// Make the record of process `pid` the caller's own, in a list of
    /// records of `record_size` bytes that starts at `list_btm`.
    pub fn set_self_ipc(&mut self, list_btm: u64, record_size: u64, pid: u16)
        requires
            pid >= 1,
            list_btm + record_size * (pid - 1) <= u64::MAX,
        ensures
            final(self).record() == list_btm + record_size * (pid - 1),
    {
        self.record = ipc_record_address(list_btm, record_size, pid);
    }

    /// The address of the caller's own record.
    pub fn get_self_ipc(&self) -> (a: u64)
        ensures
            a == self.record(),
    {
        self.record
    }
}

/// What `receive` hands back from the caller's IPC record once a message
/// arrived: the sender, the value, and no page attributes.
pub fn received_message(ipc: &InterProcessComm) -> (r: (u16, usize, ArchPageTableEntryAttr))
    ensures
        r.0 == ipc.ipc_from,
        r.1 == ipc.ipc_value,
        r.2.bits() == 0,
{
    (ipc.ipc_from, ipc.ipc_value, ArchPageTableEntryAttr::new(0))
}

/// What `send` does after one attempt.
#[derive(Clone, Copy, Debug, PartialEq, Eq, Structural)]
pub enum SendAction {
    /// The message was delivered.
    Sent,
    /// The receiver is not waiting: give up the processor and try again.
    Yield,
    /// Another error: report it and try again.
    Report(SystemCallError),
}

/// What `send` does after an attempt that returned `r`: it stops only once
/// the message was delivered.
pub fn send_action(r: &Result<(), SystemCallError>) -> (a: SendAction)
    ensures
        a == (match r {
            Ok(_) => SendAction::Sent,
            Err(SystemCallError::SceIpcNotReceiving) => SendAction::Yield,
            Err(e) => SendAction::Report(*e),
        }),
{
    match r {
        Ok(_) => SendAction::Sent,
        Err(SystemCallError::SceIpcNotReceiving) => SendAction::Yield,
        Err(e) => SendAction::Report(*e),
    }
}

} // verus!
