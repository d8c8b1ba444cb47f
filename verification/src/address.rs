//! Socket addresses as plain values.
use vstd::prelude::*;

verus! {

/// The address of a socket.
#[derive(Debug, Clone, Copy, PartialEq, Eq)]
pub enum SocketAddress {
    /// An IPv4 address and a port.
    V4 { ipv4: [u8; 4], port: u16 },
    /// An IPv6 address and a port, with its flow information and scope.
    V6 { ipv6: [u8; 16], port: u16, flowinfo: u32, scope_id: u32 },
}

impl SocketAddress {
    /// Whether this is `0.0.0.0:0`, the address that stands for none in particular.
    pub open spec fn is_unspecified(self) -> bool {
        self matches SocketAddress::V4 { ipv4, port } && ipv4@ == seq![0u8, 0, 0, 0] && port == 0
    }

    /// `0.0.0.0:0`.
    pub fn unspecified() -> (addr: Self)
        ensures
            addr.is_unspecified(),
            addr matches SocketAddress::V4 { ipv4, port } && ipv4@ == seq![0u8, 0, 0, 0] && port
                == 0,
    {
        let ipv4: [u8; 4] = [0, 0, 0, 0];
        assert(ipv4@ =~= seq![0u8, 0, 0, 0]);
        SocketAddress::V4 { ipv4, port: 0 }
    }
}

} // verus!
