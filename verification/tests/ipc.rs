use userland::ipc::{ipc_record_address, received_message, send_action, InterProcessComm, SelfIpc, SendAction};
use userland::page_table::ArchPageTableEntryAttr;
use userland::syscall::SystemCallError;

#[test]
fn record_addresses() {
    assert_eq!(ipc_record_address(0x7f_bfe0_0000, 32, 1), 0x7f_bfe0_0000);
    assert_eq!(ipc_record_address(0x7f_bfe0_0000, 32, 3), 0x7f_bfe0_0040);
    assert_eq!(ipc_record_address(0x1000, 64, 65535), 0x1000 + 64 * 65534);
}

#[test]
fn received_message_reads_sender_and_value() {
    let ipc = InterProcessComm {
        index: 2,
        ipc_from: 7,
        ipc_receiving: false,
        ipc_value: 42,
        ipc_dst_addr: 0,
        ipc_dst_attr: 0x43,
    };
    let (from, value, attr) = received_message(&ipc);
    assert_eq!(from, 7);
    assert_eq!(value, 42);
    assert_eq!(attr, ArchPageTableEntryAttr::new(0));
}

#[test]
fn sender_reactions() {
    assert_eq!(send_action(&Ok(())), SendAction::Sent);
    assert_eq!(send_action(&Err(SystemCallError::SceIpcNotReceiving)), SendAction::Yield);
    assert_eq!(
        send_action(&Err(SystemCallError::ScePidNotFound)),
        SendAction::Report(SystemCallError::ScePidNotFound)
    );
}

#[test]
fn own_record_after_set() {
    let mut s = SelfIpc::new();
    assert_eq!(s.get_self_ipc(), 0);
    s.set_self_ipc(0x7f_bfe0_0000, 32, 3);
    assert_eq!(s.get_self_ipc(), 0x7f_bfe0_0040);
    assert_eq!(s.get_self_ipc(), s.get_self_ipc());
    s.set_self_ipc(0x7f_bfe0_0000, 32, 1);
    assert_eq!(s.get_self_ipc(), 0x7f_bfe0_0000);
}
