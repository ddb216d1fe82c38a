use netlink_packet_route::socket::{MioSocket, SocketAddr, SocketCall, SocketOption};

fn open_socket() -> MioSocket {
    let mut socket = MioSocket::new(0);
    assert!(socket.opened(5));
    socket
}

#[test]
fn socket_is_opened_non_blocking_and_once() {
    let mut socket = MioSocket::new(16);
    assert_eq!(socket.as_raw_fd(), None);
    assert_eq!(socket.open(), Some(SocketCall::Open { protocol: 16, non_blocking: true }));
    assert!(!socket.opened(-1));
    assert_eq!(socket.as_raw_fd(), None);
    assert!(socket.opened(3));
    assert_eq!(socket.as_raw_fd(), Some(3));
    assert_eq!(socket.open(), None);
    assert!(!socket.opened(4));
    assert_eq!(socket.as_raw_fd(), Some(3));
}

#[test]
fn socket_that_is_not_open_asks_for_nothing() {
    let mut socket = MioSocket::new(0);
    let addr = SocketAddr::new(1, 2);
    assert_eq!(socket.bind(&addr), None);
    assert_eq!(socket.bind_auto(), None);
    assert_eq!(socket.get_address(), None);
    assert_eq!(socket.connect(&addr), None);
    assert_eq!(socket.recv(10, 0), None);
    assert_eq!(socket.recv_from(10, 0), None);
    assert_eq!(socket.send(10, 0), None);
    assert_eq!(socket.send_to(10, &addr, 0), None);
    assert_eq!(socket.set_pktinfo(true), None);
    assert_eq!(socket.get_pktinfo(), None);
    assert_eq!(socket.add_membership(1), None);
    assert_eq!(socket.drop_membership(1), None);
    assert_eq!(socket.set_broadcast_error(true), None);
    assert_eq!(socket.get_broadcast_error(), None);
    assert_eq!(socket.set_no_enobufs(true), None);
    assert_eq!(socket.get_no_enobufs(), None);
    assert_eq!(socket.set_listen_all_namespaces(true), None);
    assert_eq!(socket.get_listen_all_namespaces(), None);
    assert_eq!(socket.set_cap_ack(true), None);
    assert_eq!(socket.get_cap_ack(), None);
}

#[test]
fn socket_address_operations() {
    let mut socket = open_socket();
    let addr = SocketAddr::new(1234, 0b101);
    assert_eq!(addr.port_number(), 1234);
    assert_eq!(addr.multicast_groups(), 0b101);
    assert_eq!(socket.bind(&addr), Some(SocketCall::Bind { fd: 5, addr }));
    assert_eq!(socket.bind_auto(), Some(SocketCall::BindAuto { fd: 5 }));
    assert_eq!(socket.get_address(), Some(SocketCall::GetAddress { fd: 5 }));
    assert_eq!(socket.connect(&addr), Some(SocketCall::Connect { fd: 5, addr }));
}

#[test]
fn socket_transfer_operations() {
    let socket = open_socket();
    let addr = SocketAddr::new(0, 0);
    assert_eq!(socket.recv(4096, 2), Some(SocketCall::Recv { fd: 5, len: 4096, flags: 2 }));
    assert_eq!(
        socket.recv_from(4096, 0),
        Some(SocketCall::RecvFrom { fd: 5, len: 4096, flags: 0 })
    );
    assert_eq!(socket.send(36, 0), Some(SocketCall::Send { fd: 5, len: 36, flags: 0 }));
    assert_eq!(
        socket.send_to(36, &addr, 64),
        Some(SocketCall::SendTo { fd: 5, len: 36, addr, flags: 64 })
    );
}

#[test]
fn socket_switches() {
    let mut socket = open_socket();
    let set = |option, value| Some(SocketCall::SetOption { fd: 5, option, value });
    let get = |option| Some(SocketCall::GetOption { fd: 5, option });
    assert_eq!(socket.set_pktinfo(true), set(SocketOption::PktInfo, true));
    assert_eq!(socket.set_pktinfo(false), set(SocketOption::PktInfo, false));
    assert_eq!(socket.get_pktinfo(), get(SocketOption::PktInfo));
    assert_eq!(socket.set_broadcast_error(true), set(SocketOption::BroadcastError, true));
    assert_eq!(socket.get_broadcast_error(), get(SocketOption::BroadcastError));
    assert_eq!(socket.set_no_enobufs(false), set(SocketOption::NoEnobufs, false));
    assert_eq!(socket.get_no_enobufs(), get(SocketOption::NoEnobufs));
    assert_eq!(
        socket.set_listen_all_namespaces(true),
        set(SocketOption::ListenAllNamespaces, true)
    );
    assert_eq!(socket.get_listen_all_namespaces(), get(SocketOption::ListenAllNamespaces));
    assert_eq!(socket.set_cap_ack(true), set(SocketOption::CapAck, true));
    assert_eq!(socket.get_cap_ack(), get(SocketOption::CapAck));
}

#[test]
fn socket_memberships() {
    let mut socket = open_socket();
    assert_eq!(socket.add_membership(3), Some(SocketCall::AddMembership { fd: 5, group: 3 }));
    assert_eq!(socket.drop_membership(3), Some(SocketCall::DropMembership { fd: 5, group: 3 }));
}

#[test]
fn socket_switch_values() {
    assert_eq!(SocketOption::value(true), 1);
    assert_eq!(SocketOption::value(false), 0);
    assert!(SocketOption::is_on(1));
    assert!(!SocketOption::is_on(0));
    assert!(!SocketOption::is_on(2));
    assert!(!SocketOption::is_on(-1));
    assert_eq!(SocketAddr::automatic(), SocketAddr::new(0, 0));
}
