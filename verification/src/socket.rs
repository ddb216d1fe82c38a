//! The netlink socket, without the input and output: which system call
//! each operation of the socket asks for, decided here and carried out by
//! the program around the library.
//!
//! A `MioSocket` is the record of one socket: the protocol it is for, and
//! the descriptor once the program has opened it. Each operation returns
//! the call that the program has to make on that descriptor, or nothing
//! while the socket is not open. What the kernel answers stays with the
//! program. The socket is always opened non-blocking, so that it can be
//! polled.

use vstd::prelude::*;

verus! {

/// The address of a netlink endpoint: the number of its port, zero for the
/// kernel, and the mask of the multicast groups that it listens to.
#[derive(Debug, Clone, Copy, PartialEq, Eq, Structural)]
pub struct SocketAddr {
    pub port_number: u32,
    pub multicast_groups: u32,
}

impl SocketAddr {
    /// The address with the port `port_number` and the groups
    /// `multicast_groups`.
    pub fn new(port_number: u32, multicast_groups: u32) -> (addr: SocketAddr)
        ensures
            addr == (SocketAddr { port_number, multicast_groups }),
    {
        SocketAddr { port_number, multicast_groups }
    }

    /// The address to bind to where the kernel is to pick the port: port
    /// zero, no groups.
    pub fn automatic() -> (addr: SocketAddr)
        ensures
            addr == (SocketAddr { port_number: 0, multicast_groups: 0 }),
    {
        SocketAddr { port_number: 0, multicast_groups: 0 }
    }

    /// The number of the port.
    pub fn port_number(&self) -> (n: u32)
        ensures
            n == self.port_number,
    {
        self.port_number
    }

    /// The mask of the multicast groups.
    pub fn multicast_groups(&self) -> (n: u32)
        ensures
            n == self.multicast_groups,
    {
        self.multicast_groups
    }
}

/// A switch of a netlink socket.
#[derive(Debug, Clone, Copy, PartialEq, Eq, Structural)]
pub enum SocketOption {
    /// Whether each message comes with the group it was sent to.
    PktInfo,
    /// Whether a failed delivery to a listener is reported to the sender.
    BroadcastError,
    /// Whether a full receive buffer is passed over in silence.
    NoEnobufs,
    /// Whether messages of all network namespaces are received.
    ListenAllNamespaces,
    /// Whether an acknowledgement leaves out the body of the request.
    CapAck,
}

impl SocketOption {
    /// The number that turns a switch on or off: one or zero.
    pub fn value(on: bool) -> (raw: libc::c_int)
        ensures
            raw == if on {
                1i32
            } else {
                0i32
            },
    {
        if on {
            1
        } else {
            0
        }
    }

    /// Whether the number that the kernel answers with says that a switch
    /// is on: only one does.
    pub fn is_on(raw: libc::c_int) -> (on: bool)
        ensures
            on == (raw == 1),
    {
        raw == 1
    }
}

/// A system call that the program is asked to make.
#[derive(Debug, Clone, Copy, PartialEq, Eq, Structural)]
pub enum SocketCall {
    /// Open a netlink socket for `protocol`, non-blocking where
    /// `non_blocking` is set.
    Open { protocol: isize, non_blocking: bool },
    /// Bind the socket to `addr`.
    Bind { fd: i32, addr: SocketAddr },
    /// Bind the socket to a port that the kernel picks, and ask which
    /// address it got.
    BindAuto { fd: i32 },
    /// Ask for the address that the socket is bound to.
    GetAddress { fd: i32 },
    /// Set the address that the socket sends to.
    Connect { fd: i32, addr: SocketAddr },
    /// Receive one message of at most `len` bytes, and who sent it.
    RecvFrom { fd: i32, len: usize, flags: libc::c_int },
    /// Receive one message of at most `len` bytes.
    Recv { fd: i32, len: usize, flags: libc::c_int },
    /// Send `len` bytes to `addr`.
    SendTo { fd: i32, len: usize, addr: SocketAddr, flags: libc::c_int },
    /// Send `len` bytes to the address that the socket is connected to.
    Send { fd: i32, len: usize, flags: libc::c_int },
    /// Turn a switch on or off.
    SetOption { fd: i32, option: SocketOption, value: bool },
    /// Ask whether a switch is on.
    GetOption { fd: i32, option: SocketOption },
    /// Join a multicast group.
    AddMembership { fd: i32, group: u32 },
    /// Leave a multicast group.
    DropMembership { fd: i32, group: u32 },
}

/// The record of one netlink socket that is polled for readiness.
#[derive(Debug, PartialEq, Eq)]
pub struct MioSocket {
    protocol: isize,
    fd: Option<i32>,
}

impl MioSocket {
    /// The protocol that the socket is for.
    pub closed spec fn spec_protocol(&self) -> isize {
        self.protocol
    }

    /// The descriptor, once the socket is open.
    pub closed spec fn spec_fd(&self) -> Option<i32> {
        self.fd
    }

    /// The call that an operation asks for: `call` of the descriptor where
    /// the socket is open, nothing where it is not.
    pub open spec fn asks(&self, call: spec_fn(i32) -> SocketCall) -> Option<SocketCall> {
        match self.spec_fd() {
            Some(fd) => Some(call(fd)),
            None => None,
        }
    }

    /// The record of a socket for `protocol` that is not open yet.
    pub fn new(protocol: isize) -> (socket: MioSocket)
        ensures
            socket.spec_protocol() == protocol,
            socket.spec_fd() is None,
    {
        MioSocket { protocol, fd: None }
    }

    /// The call that opens the socket, always non-blocking; nothing where
    /// the socket is open already.
    pub fn open(&self) -> (call: Option<SocketCall>)
        ensures
            call == if self.spec_fd() is None {
                Some(SocketCall::Open { protocol: self.spec_protocol(), non_blocking: true })
            } else {
                None
            },
    {
        match self.fd {
            None => Some(SocketCall::Open { protocol: self.protocol, non_blocking: true }),
            Some(_) => None,
        }
    }

    /// Notes that the program has opened the socket as the descriptor `fd`.
    /// A descriptor is not negative, and a socket is opened once: else the
    /// record stays as it is, and the answer is `false`.
    pub fn opened(&mut self, fd: i32) -> (noted: bool)
        ensures
            noted == (old(self).spec_fd() is None && fd >= 0),
            final(self).spec_protocol() == old(self).spec_protocol(),
            final(self).spec_fd() == if noted {
                Some(fd)
            } else {
                old(self).spec_fd()
            },
    {
        if self.fd.is_none() && fd >= 0 {
            self.fd = Some(fd);
            true
        } else {
            false
        }
    }

    /// The descriptor, once the socket is open.
    pub fn as_raw_fd(&self) -> (fd: Option<i32>)
        ensures
            fd == self.spec_fd(),
    {
        self.fd
    }

    /// Asks to bind the socket to `addr`.
    pub fn bind(&mut self, addr: &SocketAddr) -> (call: Option<SocketCall>)
        ensures
            *final(self) == *old(self),
            call == old(self).asks(|fd: i32| SocketCall::Bind { fd, addr: *addr }),
    {
        match self.fd {
            Some(fd) => Some(SocketCall::Bind { fd, addr: *addr }),
            None => None,
        }
    }

    /// Asks to bind the socket to a port that the kernel picks.
    pub fn bind_auto(&mut self) -> (call: Option<SocketCall>)
        ensures
            *final(self) == *old(self),
            call == old(self).asks(|fd: i32| SocketCall::BindAuto { fd }),
    {
        match self.fd {
            Some(fd) => Some(SocketCall::BindAuto { fd }),
            None => None,
        }
    }

    /// Asks for the address that the socket is bound to.
    pub fn get_address(&self) -> (call: Option<SocketCall>)
        ensures
            call == self.asks(|fd: i32| SocketCall::GetAddress { fd }),
    {
        match self.fd {
            Some(fd) => Some(SocketCall::GetAddress { fd }),
            None => None,
        }
    }

    /// Asks to set the address that the socket sends to.
    pub fn connect(&self, remote_addr: &SocketAddr) -> (call: Option<SocketCall>)
        ensures
            call == self.asks(|fd: i32| SocketCall::Connect { fd, addr: *remote_addr }),
    {
        match self.fd {
            Some(fd) => Some(SocketCall::Connect { fd, addr: *remote_addr }),
            None => None,
        }
    }

    /// Asks to receive one message into a buffer of `len` bytes, with the
    /// address of its sender.
    pub fn recv_from(&self, len: usize, flags: libc::c_int) -> (call: Option<SocketCall>)
        ensures
            call == self.asks(|fd: i32| SocketCall::RecvFrom { fd, len, flags }),
    {
        match self.fd {
            Some(fd) => Some(SocketCall::RecvFrom { fd, len, flags }),
            None => None,
        }
    }

    /// Asks to receive one message into a buffer of `len` bytes.
    pub fn recv(&self, len: usize, flags: libc::c_int) -> (call: Option<SocketCall>)
        ensures
            call == self.asks(|fd: i32| SocketCall::Recv { fd, len, flags }),
    {
        match self.fd {
            Some(fd) => Some(SocketCall::Recv { fd, len, flags }),
            None => None,
        }
    }

    /// Asks to send the `len` bytes of a buffer to `addr`.
    pub fn send_to(&self, len: usize, addr: &SocketAddr, flags: libc::c_int) -> (call: Option<
        SocketCall,
    >)
        ensures
            call == self.asks(|fd: i32| SocketCall::SendTo { fd, len, addr: *addr, flags }),
    {
        match self.fd {
            Some(fd) => Some(SocketCall::SendTo { fd, len, addr: *addr, flags }),
            None => None,
        }
    }

    /// Asks to send the `len` bytes of a buffer to the address that the
    /// socket is connected to.
    pub fn send(&self, len: usize, flags: libc::c_int) -> (call: Option<SocketCall>)
        ensures
            call == self.asks(|fd: i32| SocketCall::Send { fd, len, flags }),
    {
        match self.fd {
            Some(fd) => Some(SocketCall::Send { fd, len, flags }),
            None => None,
        }
    }

    /// The call that turns the switch `option` on or off.
    fn set_option(&self, option: SocketOption, value: bool) -> (call: Option<SocketCall>)
        ensures
            call == self.asks(|fd: i32| SocketCall::SetOption { fd, option, value }),
    {
        match self.fd {
            Some(fd) => Some(SocketCall::SetOption { fd, option, value }),
            None => None,
        }
    }

    /// The call that asks whether the switch `option` is on.
    fn get_option(&self, option: SocketOption) -> (call: Option<SocketCall>)
        ensures
            call == self.asks(|fd: i32| SocketCall::GetOption { fd, option }),
    {
        match self.fd {
            Some(fd) => Some(SocketCall::GetOption { fd, option }),
            None => None,
        }
    }

    /// Asks to set whether each message comes with the group it was sent to.
    pub fn set_pktinfo(&mut self, value: bool) -> (call: Option<SocketCall>)
        ensures
            *final(self) == *old(self),
            call == old(self).asks(
                |fd: i32| SocketCall::SetOption { fd, option: SocketOption::PktInfo, value },
            ),
    {
        self.set_option(SocketOption::PktInfo, value)
    }

    /// Asks whether each message comes with the group it was sent to.
    pub fn get_pktinfo(&self) -> (call: Option<SocketCall>)
        ensures
            call == self.asks(
                |fd: i32| SocketCall::GetOption { fd, option: SocketOption::PktInfo },
            ),
    {
        self.get_option(SocketOption::PktInfo)
    }

    /// Asks to join the multicast group `group`.
    pub fn add_membership(&mut self, group: u32) -> (call: Option<SocketCall>)
        ensures
            *final(self) == *old(self),
            call == old(self).asks(|fd: i32| SocketCall::AddMembership { fd, group }),
    {
        match self.fd {
            Some(fd) => Some(SocketCall::AddMembership { fd, group }),
            None => None,
        }
    }

    /// Asks to leave the multicast group `group`.
    pub fn drop_membership(&mut self, group: u32) -> (call: Option<SocketCall>)
        ensures
            *final(self) == *old(self),
            call == old(self).asks(|fd: i32| SocketCall::DropMembership { fd, group }),
    {
        match self.fd {
            Some(fd) => Some(SocketCall::DropMembership { fd, group }),
            None => None,
        }
    }

    /// Asks to set whether a failed delivery to a listener is reported to the sender.
    pub fn set_broadcast_error(&mut self, value: bool) -> (call: Option<SocketCall>)
        ensures
            *final(self) == *old(self),
            call == old(self).asks(
                |fd: i32| SocketCall::SetOption { fd, option: SocketOption::BroadcastError, value },
            ),
    {
        self.set_option(SocketOption::BroadcastError, value)
    }

    /// Asks whether a failed delivery to a listener is reported to the sender.
    pub fn get_broadcast_error(&mut self) -> (call: Option<SocketCall>)
        ensures
            *final(self) == *old(self),
            call == old(self).asks(
                |fd: i32| SocketCall::GetOption { fd, option: SocketOption::BroadcastError },
            ),
    {
        self.get_option(SocketOption::BroadcastError)
    }

    /// Asks to set whether a full receive buffer is passed over in silence.
    pub fn set_no_enobufs(&mut self, value: bool) -> (call: Option<SocketCall>)
        ensures
            *final(self) == *old(self),
            call == old(self).asks(
                |fd: i32| SocketCall::SetOption { fd, option: SocketOption::NoEnobufs, value },
            ),
    {
        self.set_option(SocketOption::NoEnobufs, value)
    }

    /// Asks whether a full receive buffer is passed over in silence.
    pub fn get_no_enobufs(&mut self) -> (call: Option<SocketCall>)
        ensures
            *final(self) == *old(self),
            call == old(self).asks(
                |fd: i32| SocketCall::GetOption { fd, option: SocketOption::NoEnobufs },
            ),
    {
        self.get_option(SocketOption::NoEnobufs)
    }

    /// Asks to set whether messages of all network namespaces are received.
    pub fn set_listen_all_namespaces(&mut self, value: bool) -> (call: Option<SocketCall>)
        ensures
            *final(self) == *old(self),
            call == old(self).asks(
                |fd: i32|
                    SocketCall::SetOption { fd, option: SocketOption::ListenAllNamespaces, value },
            ),
    {
        self.set_option(SocketOption::ListenAllNamespaces, value)
    }

    /// Asks whether messages of all network namespaces are received.
    pub fn get_listen_all_namespaces(&self) -> (call: Option<SocketCall>)
        ensures
            call == self.asks(
                |fd: i32| SocketCall::GetOption { fd, option: SocketOption::ListenAllNamespaces },
            ),
    {
        self.get_option(SocketOption::ListenAllNamespaces)
    }

    /// Asks to set whether an acknowledgement leaves out the body of the request.
    pub fn set_cap_ack(&mut self, value: bool) -> (call: Option<SocketCall>)
        ensures
            *final(self) == *old(self),
            call == old(self).asks(
                |fd: i32| SocketCall::SetOption { fd, option: SocketOption::CapAck, value },
            ),
    {
        self.set_option(SocketOption::CapAck, value)
    }

    /// Asks whether an acknowledgement leaves out the body of the request.
    pub fn get_cap_ack(&self) -> (call: Option<SocketCall>)
        ensures
            call == self.asks(
                |fd: i32| SocketCall::GetOption { fd, option: SocketOption::CapAck },
            ),
    {
        self.get_option(SocketOption::CapAck)
    }
}

} // verus!
