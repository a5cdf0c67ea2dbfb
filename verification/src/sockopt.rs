//! Requests to set or to read one socket option, and the C integers that they carry.

use vstd::prelude::*;
use crate::bytes::{number, read_u32, u32_at, u32_bytes, ByteOrder};
use crate::error::{IoError, OsError};

verus! {

/// The protocol level at which an option lives.
#[derive(Clone, Copy, Debug, PartialEq, Eq, Structural)]
pub enum Level {
    /// `SOL_SOCKET`
    Socket,
    /// `IPPROTO_IP`, which is also `SOL_IP`
    Ip,
    /// `IPPROTO_IPV6`, which is also `SOL_IPV6`
    Ipv6,
    /// `IPPROTO_TCP`
    Tcp,
}

/// The options that the library sets or reads.
#[derive(Clone, Copy, Debug, PartialEq, Eq, Structural)]
pub enum OptName {
    /// `IP_BIND_ADDRESS_NO_PORT`
    BindAddressNoPort,
    /// `IP_LOCAL_PORT_RANGE`, see [`IP_LOCAL_PORT_RANGE`]
    LocalPortRange,
    /// `IP_TRANSPARENT` (Linux)
    Transparent,
    /// `IPV6_TRANSPARENT` (Linux)
    Ipv6Transparent,
    /// `IP_BINDANY` (FreeBSD)
    BindAny,
    /// `IPV6_BINDANY` (FreeBSD)
    Ipv6BindAny,
    /// `IP_TOS`
    Tos,
    /// `IPV6_TCLASS`
    Ipv6TrafficClass,
    /// `SO_ORIGINAL_DST`
    OriginalDst,
    /// `IP6T_SO_ORIGINAL_DST`
    Ipv6OriginalDst,
    /// `SO_MARK`
    Mark,
    /// `SO_RCVBUF`
    RecvBuf,
    /// `SO_SNDBUF`
    SndBuf,
    /// `SO_COOKIE`
    Cookie,
    /// `SO_KEEPALIVE`
    KeepAlive,
    /// `TCP_KEEPIDLE`
    KeepIdle,
    /// `TCP_KEEPINTVL`
    KeepInterval,
    /// `TCP_KEEPCNT`
    KeepCount,
    /// `TCP_USER_TIMEOUT`
    UserTimeout,
    /// `TCP_INFO`
    TcpInfo,
    /// `TCP_FASTOPEN_CONNECT`
    FastOpenConnect,
    /// `TCP_FASTOPEN`
    FastOpen,
}

/// The number of `IP_LOCAL_PORT_RANGE` on Linux.
pub const IP_LOCAL_PORT_RANGE: i32 = 51;

/// The size of a C `int`.
pub const C_INT_LEN: u32 = 4;

/// A request to set an option of a socket to a C `int`.
#[derive(Clone, Copy, Debug, PartialEq, Eq, Structural)]
pub struct SetOpt {
    pub level: Level,
    pub name: OptName,
    pub value: i32,
}

/// A request to read an option of a socket into `size` bytes.
#[derive(Clone, Copy, Debug, PartialEq, Eq, Structural)]
pub struct GetOpt {
    pub level: Level,
    pub name: OptName,
    pub size: u32,
}

/// How reading something of a socket starts.
#[derive(Debug, PartialEq, Eq)]
pub enum Start<T> {
    /// The system has to be asked.
    Ask(GetOpt),
    /// The platform has nothing to ask for: this is the answer.
    Known(T),
}

/// The C `int` that an integer becomes when it is cast: the one that differs from `n` by a
/// multiple of 2^32.
pub open spec fn to_c_int(n: int) -> i32 {
    let low = n % 0x1_0000_0000;
    (if low < 0x8000_0000 {
        low
    } else {
        low - 0x1_0000_0000
    }) as i32
}

/// The `usize` that a C `int` becomes when it is cast: a negative one wraps round from the top.
pub open spec fn to_usize(v: i32) -> usize {
    (if v >= 0 {
        v as int
    } else {
        usize::MAX + 1 + v
    }) as usize
}

/// Casts to a C `int`, keeping the low 32 bits.
pub fn c_int(n: u128) -> (v: i32)
    ensures
        v == to_c_int(n as int),
        (n - v) % 0x1_0000_0000 == 0,
{
    let low: i64 = (n % 0x1_0000_0000) as i64;
    if low < 0x8000_0000 {
        low as i32
    } else {
        (low - 0x1_0000_0000) as i32
    }
}

/// Casts a C `int` to `usize`.
pub fn usize_of_c_int(v: i32) -> (n: usize)
    ensures
        n == to_usize(v),
        v >= 0 ==> n == v,
        v < 0 ==> n - v == usize::MAX + 1,
{
    if v >= 0 {
        v as usize
    } else {
        let below: i64 = -1 - (v as i64);
        usize::MAX - below as usize
    }
}

/// The request to set the option `name` at `level` to `payload`.
pub fn set_opt(level: Level, name: OptName, payload: i32) -> (r: SetOpt)
    ensures
        r == (SetOpt { level, name, value: payload }),
{
    SetOpt { level, name, value: payload }
}

/// The request to read `size` bytes of the option `name` at `level`.
pub fn get_opt(level: Level, name: OptName, size: u32) -> (r: GetOpt)
    ensures
        r == (GetOpt { level, name, size }),
{
    GetOpt { level, name, size }
}

impl SetOpt {
    /// The bytes that are handed to the system: those of a C `int` in the machine's byte order.
    pub fn payload(&self, order: ByteOrder) -> (bytes: Vec<u8>)
        ensures
            bytes@.len() == C_INT_LEN,
            to_c_int(number(order, bytes@) as int) == self.value,
            order is Little ==> (bytes@[0] + 256 * bytes@[1] + 65536 * bytes@[2] + 16777216
                * bytes@[3] - self.value) % 0x1_0000_0000 == 0,
            order is Big ==> (bytes@[3] + 256 * bytes@[2] + 65536 * bytes@[1] + 16777216 * bytes@[0]
                - self.value) % 0x1_0000_0000 == 0,
    {
        let unsigned: u32 = if self.value >= 0 {
            self.value as u32
        } else {
            (self.value as i64 + 0x1_0000_0000) as u32
        };
        u32_bytes(unsigned, order)
    }
}

/// What reading an option of `size` bytes gives: `reply` holds the bytes that the system wrote,
/// and any other count of them than asked for is an error.
pub open spec fn sized_reply(size: u32, reply: Result<Vec<u8>, OsError>) -> Result<
    Vec<u8>,
    IoError,
> {
    match reply {
        Err(e) => Err(IoError::Os(e)),
        Ok(bytes) => if bytes@.len() != size {
            Err(IoError::Other("get_opt size mismatch"))
        } else {
            Ok(bytes)
        },
    }
}

/// Takes the reply to a request for `expected_size` bytes.
pub fn get_opt_sized(expected_size: u32, reply: Result<Vec<u8>, OsError>) -> (r: Result<
    Vec<u8>,
    IoError,
>)
    ensures
        r == sized_reply(expected_size, reply),
        reply matches Err(e) ==> r == Err::<Vec<u8>, IoError>(IoError::Os(e)),
        reply matches Ok(bytes) ==> {
            &&& bytes@.len() == expected_size ==> r == Ok::<Vec<u8>, IoError>(bytes)
            &&& bytes@.len() != expected_size ==> r == Err::<Vec<u8>, IoError>(
                IoError::Other("get_opt size mismatch"),
            )
        },
{
    match reply {
        Err(e) => Err(IoError::Os(e)),
        Ok(bytes) => {
            if bytes.len() as u64 != expected_size as u64 {
                return Err(IoError::Other("get_opt size mismatch"));
            }
            Ok(bytes)
        },
    }
}

/// The C `int` that four bytes hold on a machine with the given byte order.
pub open spec fn c_int_at(bytes: Seq<u8>, order: ByteOrder) -> i32 {
    to_c_int(u32_at(bytes, 0, order) as int)
}

/// Takes the reply to a request for a C `int`.
pub fn get_opt_c_int(order: ByteOrder, reply: Result<Vec<u8>, OsError>) -> (r: Result<
    i32,
    IoError,
>)
    ensures
        r == (match sized_reply(C_INT_LEN, reply) {
            Ok(bytes) => Ok::<i32, IoError>(c_int_at(bytes@, order)),
            Err(e) => Err(e),
        }),
{
    match get_opt_sized(C_INT_LEN, reply) {
        Ok(bytes) => Ok(c_int(read_u32(&bytes, 0, order) as u128)),
        Err(e) => Err(e),
    }
}

/// A cast to a C `int` keeps the low 32 bits and nothing else: two integers become the same C
/// `int` exactly if they differ by a multiple of 2^32, and one that a C `int` can hold becomes
/// itself.
pub proof fn law_cast_keeps_the_low_bits(n: int, m: int)
    ensures
        (n - to_c_int(n)) % 0x1_0000_0000 == 0,
        to_c_int(n) == to_c_int(m) <==> (n - m) % 0x1_0000_0000 == 0,
        i32::MIN <= n <= i32::MAX ==> to_c_int(n) == n,
{
}

/// A C `int` that is not negative becomes itself as a `usize`; a negative one wraps round.
pub proof fn law_cast_to_usize(v: i32)
    ensures
        v >= 0 ==> to_usize(v) == v,
        v < 0 ==> to_usize(v) - v == usize::MAX + 1,
{
}

/// A reply is an error exactly if the call failed or gave another count of bytes than was asked
/// for; otherwise it is those bytes.
pub proof fn law_replies_have_the_size_asked_for(size: u32, reply: Result<Vec<u8>, OsError>)
    ensures
        sized_reply(size, reply) is Ok <==> reply is Ok && reply->Ok_0@.len() == size,
        sized_reply(size, reply) matches Ok(bytes) ==> reply == Ok::<Vec<u8>, OsError>(bytes),
        reply matches Err(e) ==> sized_reply(size, reply) == Err::<Vec<u8>, IoError>(
            IoError::Os(e),
        ),
        reply is Ok && reply->Ok_0@.len() != size ==> sized_reply(size, reply) == Err::<
            Vec<u8>,
            IoError,
        >(IoError::Other("get_opt size mismatch")),
{
}

/// The C `int` that four bytes hold has those bytes as its low 32 bits.
pub proof fn law_c_int_in_memory(bytes: Seq<u8>, order: ByteOrder)
    requires
        bytes.len() == 4,
    ensures
        order is Little ==> (bytes[0] + 256 * bytes[1] + 65536 * bytes[2] + 16777216 * bytes[3]
            - c_int_at(bytes, order)) % 0x1_0000_0000 == 0,
        order is Big ==> (bytes[3] + 256 * bytes[2] + 65536 * bytes[1] + 16777216 * bytes[0]
            - c_int_at(bytes, order)) % 0x1_0000_0000 == 0,
{
    crate::bytes::law_u32_at(bytes, 0, order);
}

/// A C `int` is read back as it was written: the bytes that a request to set an option hands
/// over are, where they come back as they are, the value of that request.
pub proof fn law_c_int_round_trip(r: SetOpt, order: ByteOrder, payload: Seq<u8>)
    requires
        payload.len() == C_INT_LEN,
        to_c_int(number(order, payload) as int) == r.value,
    ensures
        c_int_at(payload, order) == r.value,
{
    crate::bytes::lemma_number_bound(order, payload);
    reveal_with_fuel(crate::bytes::capacity, 5);
    assert(payload.subrange(0, 4) =~= payload);
}

} // verus!
