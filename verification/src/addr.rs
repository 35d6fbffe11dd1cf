//! Addresses of UDP endpoints.

use vstd::prelude::*;

verus! {

/// The address of a UDP endpoint: an IP address and a port, as plain integers.
///
/// An IPv4 address is held as its 32 bits, first octet highest (`10.0.0.5`
/// is `0x0A00_0005`), an IPv6 address as its 128 bits in the same way.
#[derive(Clone, Copy, Debug, PartialEq, Eq, Hash, Structural)]
pub enum UdpAddr {
    V4 { ipv4: u32, port: u16 },
    V6 { ipv6: u128, port: u16, flowinfo: u32, scope_id: u32 },
}

impl UdpAddr {
    /// The 32 bits of the IPv4 address `a.b.c.d`.
    pub open spec fn ipv4_bits(a: u8, b: u8, c: u8, d: u8) -> int {
        a * 0x100_0000 + b * 0x1_0000 + c * 0x100 + d
    }

    /// The IPv4 endpoint `a.b.c.d:port`.
    pub fn v4(a: u8, b: u8, c: u8, d: u8, port: u16) -> (addr: UdpAddr)
        ensures
            addr matches UdpAddr::V4 { ipv4, port: p } && ipv4 == Self::ipv4_bits(a, b, c, d) && p
                == port,
    {
        let high: u32 = (a as u32) * 0x100_0000 + (b as u32) * 0x1_0000;
        let low: u32 = (c as u32) * 0x100 + (d as u32);
        UdpAddr::V4 { ipv4: high + low, port }
    }

    /// The port of the endpoint.
    pub fn port(&self) -> (port: u16)
        ensures
            self matches UdpAddr::V4 { port: p, .. } ==> port == p,
            self matches UdpAddr::V6 { port: p, .. } ==> port == p,
    {
        match self {
            UdpAddr::V4 { port, .. } => *port,
            UdpAddr::V6 { port, .. } => *port,
        }
    }
}

} // verus!
