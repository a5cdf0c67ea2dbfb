//! Internet socket addresses, and how the system lays them out in memory.

use vstd::prelude::*;
use crate::bytes::{law_u16_at, law_u32_at, read_u16, read_u32, u16_at, u32_at, ByteOrder};

verus! {

/// An IPv4 address and a port.
#[derive(Clone, Copy, Debug, PartialEq, Eq)]
pub struct SocketAddrV4 {
    /// The four octets, in the order in which they are written.
    pub ip: [u8; 4],
    pub port: u16,
}

/// An IPv6 address and a port, with flow information and scope.
#[derive(Clone, Copy, Debug, PartialEq, Eq)]
pub struct SocketAddrV6 {
    /// The sixteen octets, in the order in which they are written.
    pub ip: [u8; 16],
    pub port: u16,
    pub flowinfo: u32,
    pub scope_id: u32,
}

/// An internet socket address.
#[derive(Clone, Copy, Debug, PartialEq, Eq)]
pub enum SocketAddr {
    V4(SocketAddrV4),
    V6(SocketAddrV6),
}

impl SocketAddr {
    /// Whether this is an IPv4 address.
    pub fn is_ipv4(&self) -> (r: bool)
        ensures
            r == (self is V4),
    {
        matches!(self, SocketAddr::V4(_))
    }

    /// Whether this is an IPv6 address.
    pub fn is_ipv6(&self) -> (r: bool)
        ensures
            r == (self is V6),
    {
        matches!(self, SocketAddr::V6(_))
    }
}

/// The size of a `sockaddr_in`.
pub const SOCKADDR_IN_LEN: usize = 16;

/// The size of a `sockaddr_in6`.
pub const SOCKADDR_IN6_LEN: usize = 28;

/// `addr` is what a `sockaddr_in` holds: behind the two bytes of the address family come the
/// port and then the octets of the address, both in network order (most significant byte
/// first), whatever the machine's own order is.
pub open spec fn is_sockaddr_in(bytes: Seq<u8>, addr: SocketAddrV4) -> bool {
    &&& addr.port == u16_at(bytes, 2, ByteOrder::Big)
    &&& addr.ip@ == bytes.subrange(4, 8)
}

/// `addr` is what a `sockaddr_in6` holds: behind the two bytes of the address family come the
/// port in network order, the flow information as the machine reads it, the octets of the
/// address, and the scope as the machine reads it.
pub open spec fn is_sockaddr_in6(bytes: Seq<u8>, order: ByteOrder, addr: SocketAddrV6) -> bool {
    &&& addr.port == u16_at(bytes, 2, ByteOrder::Big)
    &&& addr.flowinfo == u32_at(bytes, 4, order)
    &&& addr.ip@ == bytes.subrange(8, 24)
    &&& addr.scope_id == u32_at(bytes, 24, order)
}

/// Reads a `sockaddr_in`.
pub fn read_sockaddr_in(bytes: &Vec<u8>) -> (addr: SocketAddrV4)
    requires
        bytes@.len() == SOCKADDR_IN_LEN,
    ensures
        is_sockaddr_in(bytes@, addr),
        addr.port == 256 * bytes@[2] + bytes@[3],
        forall|i: int| 0 <= i < 4 ==> #[trigger] addr.ip@[i] == bytes@[4 + i],
{
    proof {
        law_u16_at(bytes@, 2, ByteOrder::Big);
    }
    let ip: [u8; 4] = [bytes[4], bytes[5], bytes[6], bytes[7]];
    assert(ip@ =~= bytes@.subrange(4, 8));
    SocketAddrV4 { ip, port: read_u16(bytes, 2, ByteOrder::Big) }
}

/// Reads a `sockaddr_in6` on a machine with the given byte order.
pub fn read_sockaddr_in6(bytes: &Vec<u8>, order: ByteOrder) -> (addr: SocketAddrV6)
    requires
        bytes@.len() == SOCKADDR_IN6_LEN,
    ensures
        is_sockaddr_in6(bytes@, order, addr),
        addr.port == 256 * bytes@[2] + bytes@[3],
        forall|i: int| 0 <= i < 16 ==> #[trigger] addr.ip@[i] == bytes@[8 + i],
{
    proof {
        law_u16_at(bytes@, 2, ByteOrder::Big);
    }
    let ip: [u8; 16] = [
        bytes[8],
        bytes[9],
        bytes[10],
        bytes[11],
        bytes[12],
        bytes[13],
        bytes[14],
        bytes[15],
        bytes[16],
        bytes[17],
        bytes[18],
        bytes[19],
        bytes[20],
        bytes[21],
        bytes[22],
        bytes[23],
    ];
    assert(ip@ =~= bytes@.subrange(8, 24));
    SocketAddrV6 {
        ip,
        port: read_u16(bytes, 2, ByteOrder::Big),
        flowinfo: read_u32(bytes, 4, order),
        scope_id: read_u32(bytes, 24, order),
    }
}

/// An IPv4 address in memory, byte by byte: the port is the two bytes from offset 2 on, the high
/// one first, and each octet of the address is the byte at its place from offset 4 on.
pub proof fn law_sockaddr_in_octets(bytes: Seq<u8>, addr: SocketAddrV4)
    requires
        bytes.len() == 16,
        is_sockaddr_in(bytes, addr),
    ensures
        addr.port == 256 * bytes[2] + bytes[3],
        forall|i: int| 0 <= i < 4 ==> #[trigger] addr.ip@[i] == bytes[4 + i],
{
    law_u16_at(bytes, 2, ByteOrder::Big);
}

/// An IPv6 address in memory, byte by byte: the port is the two bytes from offset 2 on, the high
/// one first; each octet of the address is the byte at its place from offset 8 on; the flow
/// information and the scope are the four bytes from offsets 4 and 24 on, as the machine reads
/// them.
pub proof fn law_sockaddr_in6_octets(bytes: Seq<u8>, order: ByteOrder, addr: SocketAddrV6)
    requires
        bytes.len() == 28,
        is_sockaddr_in6(bytes, order, addr),
    ensures
        addr.port == 256 * bytes[2] + bytes[3],
        forall|i: int| 0 <= i < 16 ==> #[trigger] addr.ip@[i] == bytes[8 + i],
        order is Little ==> addr.flowinfo == bytes[4] + 256 * bytes[5] + 65536 * bytes[6] + 16777216
            * bytes[7],
        order is Big ==> addr.flowinfo == bytes[7] + 256 * bytes[6] + 65536 * bytes[5] + 16777216
            * bytes[4],
        order is Little ==> addr.scope_id == bytes[24] + 256 * bytes[25] + 65536 * bytes[26]
            + 16777216 * bytes[27],
        order is Big ==> addr.scope_id == bytes[27] + 256 * bytes[26] + 65536 * bytes[25] + 16777216
            * bytes[24],
{
    law_u16_at(bytes, 2, ByteOrder::Big);
    law_u32_at(bytes, 4, order);
    law_u32_at(bytes, 24, order);
}

} // verus!
