//! Extensions to the regular TCP APIs: the options that are set and read on a socket.
//!
//! A function that sets an option gives a [`Script`]; one that reads an option gives the request
//! to be made, and a second function takes the reply to it. Where a platform lacks an option,
//! the script is empty and the answer is known without asking.

use vstd::prelude::*;
use crate::addr::{
    is_sockaddr_in, is_sockaddr_in6, read_sockaddr_in, read_sockaddr_in6, SocketAddr,
    SOCKADDR_IN6_LEN, SOCKADDR_IN_LEN,
};
use crate::bytes::{law_u32_at, law_u64_at, read_u64, u64_at, ByteOrder};
use crate::error::{report, reported, Error, ErrorType, IoError, OsError, Subject};
use crate::platform::Platform;
use crate::script::{failure, fits, Call, OnFailure, Reply, Script, Step};
use crate::sockopt::{
    c_int, c_int_at, get_opt, get_opt_c_int, get_opt_sized, set_opt, sized_reply, to_c_int,
    to_usize, usize_of_c_int, GetOpt, Level, OptName, SetOpt, Start, C_INT_LEN,
};

pub use crate::connect::{connect, connect_uds, connect_with};
pub use crate::keepalive::{set_tcp_keepalive, TcpKeepalive};
pub use crate::tcp_info::{get_tcp_info, TCP_INFO};

verus! {

/// The size of a socket cookie.
pub const COOKIE_LEN: u32 = 8;

/// The step that sets one option, and reports a failure under `etype` with the context `text`.
pub open spec fn opt_step(opt: SetOpt, etype: ErrorType, text: &'static str) -> Step {
    Step { call: Call::SetOpt(opt), on_failure: OnFailure::Report(etype, text) }
}

/// A script of one option.
fn one_opt(opt: SetOpt, etype: ErrorType, text: &'static str) -> (script: Script)
    ensures
        script@ == seq![opt_step(opt, etype, text)],
{
    let step = Step { call: Call::SetOpt(opt), on_failure: OnFailure::Report(etype, text) };
    Script::new(vec![step])
}

/// A script that does nothing.
fn no_opt() -> (script: Script)
    ensures
        script@ == Seq::<Step>::empty(),
{
    Script::new(Vec::new())
}

/// The request that keeps `bind()` from choosing a port, or lets it. Only Linux has the option.
pub fn ip_bind_addr_no_port(platform: Platform, val: bool) -> (r: Option<SetOpt>)
    ensures
        r == (if platform is Linux {
            Some(
                SetOpt {
                    level: Level::Ip,
                    name: OptName::BindAddressNoPort,
                    value: if val {
                        1
                    } else {
                        0
                    },
                },
            )
        } else {
            None
        }),
{
    match platform {
        Platform::Linux => Some(
            set_opt(
                Level::Ip,
                OptName::BindAddressNoPort,
                if val {
                    1
                } else {
                    0
                },
            ),
        ),
        _ => None,
    }
}

/// The C `int` that holds a range of ports: the low bound in the low half, the high bound in the
/// high half.
pub open spec fn port_range_value(low: u16, high: u16) -> i32 {
    to_c_int(low + high * 0x1_0000)
}

/// The request that restricts the local ports. Only Linux has the option, since 6.3; the result
/// goes to
/// [`unless_unsupported`](crate::script::unless_unsupported).
pub fn ip_local_port_range(platform: Platform, low: u16, high: u16) -> (r: Option<SetOpt>)
    ensures
        r == (if platform is Linux {
            Some(
                SetOpt {
                    level: Level::Ip,
                    name: OptName::LocalPortRange,
                    value: port_range_value(low, high),
                },
            )
        } else {
            None
        }),
{
    match platform {
        Platform::Linux => {
            let range: u32 = low as u32 + high as u32 * 0x1_0000;
            Some(set_opt(Level::Ip, OptName::LocalPortRange, c_int(range as u128)))
        },
        _ => None,
    }
}

/// The option that lets a socket of the given family bind to an address that is not local.
pub open spec fn nonlocal_opt(platform: Platform, is_ipv6: bool) -> Option<SetOpt> {
    match (platform, is_ipv6) {
        (Platform::Linux, true) => Some(
            SetOpt { level: Level::Ipv6, name: OptName::Ipv6Transparent, value: 1 },
        ),
        (Platform::Linux, false) => Some(
            SetOpt { level: Level::Ip, name: OptName::Transparent, value: 1 },
        ),
        (Platform::FreeBsd, true) => Some(
            SetOpt { level: Level::Ipv6, name: OptName::Ipv6BindAny, value: 1 },
        ),
        (Platform::FreeBsd, false) => Some(
            SetOpt { level: Level::Ip, name: OptName::BindAny, value: 1 },
        ),
        _ => None,
    }
}

/// The request that allows the socket to bind to and send from a non-local source address, e.g.
/// the intercepted client's, for fully transparent (source-spoofing) proxying. Must be made
/// before `bind()`.
///
/// Linux: requires `CAP_NET_ADMIN`. FreeBSD: requires `PRIV_NETINET_BINDANY` (root).
pub fn set_bind_nonlocal(platform: Platform, is_ipv6: bool) -> (r: Option<SetOpt>)
    ensures
        r == nonlocal_opt(platform, is_ipv6),
{
    match platform {
        Platform::Linux => if is_ipv6 {
            Some(set_opt(Level::Ipv6, OptName::Ipv6Transparent, 1))
        } else {
            Some(set_opt(Level::Ip, OptName::Transparent, 1))
        },
        Platform::FreeBsd => if is_ipv6 {
            Some(set_opt(Level::Ipv6, OptName::Ipv6BindAny, 1))
        } else {
            Some(set_opt(Level::Ip, OptName::BindAny, 1))
        },
        _ => None,
    }
}

/// The request that marks the socket for policy routing. Only Linux has the option.
pub fn set_so_mark(platform: Platform, mark: u32) -> (r: Option<SetOpt>)
    ensures
        r == (if platform is Linux {
            Some(
                SetOpt { level: Level::Socket, name: OptName::Mark, value: to_c_int(mark as int) },
            )
        } else {
            None
        }),
{
    match platform {
        Platform::Linux => Some(set_opt(Level::Socket, OptName::Mark, c_int(mark as u128))),
        _ => None,
    }
}

/// Set the TCP receive buffer size. See `SO_RCVBUF`.
pub fn set_recv_buf(platform: Platform, val: usize) -> (script: Script)
    ensures
        script@ == (if platform.tunable() {
            seq![
                opt_step(
                    SetOpt {
                        level: Level::Socket,
                        name: OptName::RecvBuf,
                        value: to_c_int(val as int),
                    },
                    ErrorType::ConnectError,
                    "failed to set SO_RCVBUF",
                ),
            ]
        } else {
            seq![]
        }),
{
    if platform.is_tunable() {
        one_opt(
            set_opt(Level::Socket, OptName::RecvBuf, c_int(val as u128)),
            ErrorType::ConnectError,
            "failed to set SO_RCVBUF",
        )
    } else {
        no_opt()
    }
}

/// Set the TCP send buffer size. See `SO_SNDBUF`.
pub fn set_snd_buf(platform: Platform, val: usize) -> (script: Script)
    ensures
        script@ == (if platform.tunable() {
            seq![
                opt_step(
                    SetOpt {
                        level: Level::Socket,
                        name: OptName::SndBuf,
                        value: to_c_int(val as int),
                    },
                    ErrorType::ConnectError,
                    "failed to set SO_SNDBUF",
                ),
            ]
        } else {
            seq![]
        }),
{
    if platform.is_tunable() {
        one_opt(
            set_opt(Level::Socket, OptName::SndBuf, c_int(val as u128)),
            ErrorType::ConnectError,
            "failed to set SO_SNDBUF",
        )
    } else {
        no_opt()
    }
}

/// Starts reading the TCP receive buffer size; the reply goes to [`buf_reply`].
pub fn get_recv_buf(platform: Platform) -> (r: Start<usize>)
    ensures
        r == (if platform.tunable() {
            Start::Ask(GetOpt { level: Level::Socket, name: OptName::RecvBuf, size: C_INT_LEN })
        } else {
            Start::Known(0usize)
        }),
{
    if platform.is_tunable() {
        Start::Ask(get_opt(Level::Socket, OptName::RecvBuf, C_INT_LEN))
    } else {
        Start::Known(0)
    }
}

/// Starts reading the TCP send buffer size; the reply goes to [`buf_reply`].
pub fn get_snd_buf(platform: Platform) -> (r: Start<usize>)
    ensures
        r == (if platform.tunable() {
            Start::Ask(GetOpt { level: Level::Socket, name: OptName::SndBuf, size: C_INT_LEN })
        } else {
            Start::Known(0usize)
        }),
{
    if platform.is_tunable() {
        Start::Ask(get_opt(Level::Socket, OptName::SndBuf, C_INT_LEN))
    } else {
        Start::Known(0)
    }
}

/// Takes the reply to the request of [`get_recv_buf`] or of [`get_snd_buf`].
pub fn buf_reply(order: ByteOrder, reply: Result<Vec<u8>, OsError>) -> (r: Result<usize, IoError>)
    ensures
        r == (match sized_reply(C_INT_LEN, reply) {
            Ok(bytes) => Ok::<usize, IoError>(to_usize(c_int_at(bytes@, order))),
            Err(e) => Err(e),
        }),
        r is Ok <==> reply is Ok && reply->Ok_0@.len() == 4,
        r is Ok && order is Little && reply->Ok_0@[3] < 128 ==> ({
            let b = reply->Ok_0@;
            r->Ok_0 == b[0] + 256 * b[1] + 65536 * b[2] + 16777216 * b[3]
        }),
        r is Ok && order is Big && reply->Ok_0@[0] < 128 ==> ({
            let b = reply->Ok_0@;
            r->Ok_0 == b[3] + 256 * b[2] + 65536 * b[1] + 16777216 * b[0]
        }),
{
    proof {
        if reply is Ok && reply->Ok_0@.len() == 4 {
            law_u32_at(reply->Ok_0@, 0, order);
        }
    }
    match get_opt_c_int(order, reply) {
        Ok(v) => Ok(usize_of_c_int(v)),
        Err(e) => Err(e),
    }
}

/// Enable client side TCP fast open. Only Linux has the option.
pub fn set_tcp_fastopen_connect(platform: Platform) -> (script: Script)
    ensures
        script@ == (if platform is Linux {
            seq![
                opt_step(
                    SetOpt { level: Level::Tcp, name: OptName::FastOpenConnect, value: 1 },
                    ErrorType::ConnectError,
                    "failed to set TCP_FASTOPEN_CONNECT",
                ),
            ]
        } else {
            seq![]
        }),
{
    match platform {
        Platform::Linux => one_opt(
            set_opt(Level::Tcp, OptName::FastOpenConnect, 1),
            ErrorType::ConnectError,
            "failed to set TCP_FASTOPEN_CONNECT",
        ),
        _ => no_opt(),
    }
}

/// Enable server side TCP fast open. Only Linux has the option.
pub fn set_tcp_fastopen_backlog(platform: Platform, backlog: usize) -> (script: Script)
    ensures
        script@ == (if platform is Linux {
            seq![
                opt_step(
                    SetOpt {
                        level: Level::Tcp,
                        name: OptName::FastOpen,
                        value: to_c_int(backlog as int),
                    },
                    ErrorType::ConnectError,
                    "failed to set TCP_FASTOPEN",
                ),
            ]
        } else {
            seq![]
        }),
{
    match platform {
        Platform::Linux => one_opt(
            set_opt(Level::Tcp, OptName::FastOpen, c_int(backlog as u128)),
            ErrorType::ConnectError,
            "failed to set TCP_FASTOPEN",
        ),
        _ => no_opt(),
    }
}

/// A wish to set the DSCP of a socket whose address family is not known yet.
#[derive(Clone, Copy, Debug, PartialEq, Eq, Structural)]
pub struct DscpRequest {
    pub value: u8,
}

/// Starts setting the DSCP of a socket: [`DscpRequest::on`] goes on once the socket's local
/// address has been looked up. `None` says that there is nothing to do.
pub fn set_dscp(platform: Platform, value: u8) -> (r: Option<DscpRequest>)
    ensures
        r == (if platform.tunable() {
            Some(DscpRequest { value })
        } else {
            None
        }),
{
    if platform.is_tunable() {
        Some(DscpRequest { value })
    } else {
        None
    }
}

impl DscpRequest {
    /// Goes on with the socket's local address; `None` stands for a socket that has no internet
    /// address.
    pub fn on(self, local: Option<SocketAddr>) -> (r: Result<Script, Error>)
        ensures
            match local {
                None => r == Err::<Script, Error>(
                    reported(
                        ErrorType::SocketError,
                        "failed to set dscp, invalid IP socket",
                        None,
                    ),
                ),
                Some(SocketAddr::V6(_)) => r is Ok && r->Ok_0@ == seq![
                    opt_step(
                        SetOpt {
                            level: Level::Ipv6,
                            name: OptName::Ipv6TrafficClass,
                            value: self.value as i32,
                        },
                        ErrorType::SocketError,
                        "failed to set dscp (IPV6_TCLASS)",
                    ),
                ],
                Some(SocketAddr::V4(_)) => r is Ok && r->Ok_0@ == seq![
                    opt_step(
                        SetOpt {
                            level: Level::Ip,
                            name: OptName::Tos,
                            value: self.value as i32,
                        },
                        ErrorType::SocketError,
                        "failed to set dscp (IP_TOS)",
                    ),
                ],
            },
    {
        match local {
            None => Err(
                report(ErrorType::SocketError, "failed to set dscp, invalid IP socket", None),
            ),
            Some(addr) => if addr.is_ipv6() {
                Ok(
                    one_opt(
                        set_opt(Level::Ipv6, OptName::Ipv6TrafficClass, self.value as i32),
                        ErrorType::SocketError,
                        "failed to set dscp (IPV6_TCLASS)",
                    ),
                )
            } else {
                Ok(
                    one_opt(
                        set_opt(Level::Ip, OptName::Tos, self.value as i32),
                        ErrorType::SocketError,
                        "failed to set dscp (IP_TOS)",
                    ),
                )
            },
        }
    }
}

/// Starts reading the socket's cookie; the reply goes to [`cookie_reply`]. Cookies are a Linux
/// concept; every other Unix has 0.
pub fn get_socket_cookie(platform: Platform) -> (r: Start<u64>)
    requires
        !(platform is Windows),
    ensures
        r == (if platform is Linux {
            Start::Ask(GetOpt { level: Level::Socket, name: OptName::Cookie, size: COOKIE_LEN })
        } else {
            Start::Known(0u64)
        }),
{
    match platform {
        Platform::Linux => Start::Ask(get_opt(Level::Socket, OptName::Cookie, COOKIE_LEN)),
        _ => Start::Known(0),
    }
}

/// Takes the reply to the request of [`get_socket_cookie`].
pub fn cookie_reply(order: ByteOrder, reply: Result<Vec<u8>, OsError>) -> (r: Result<u64, IoError>)
    ensures
        r == (match sized_reply(COOKIE_LEN, reply) {
            Ok(bytes) => Ok::<u64, IoError>(u64_at(bytes@, 0, order)),
            Err(e) => Err(e),
        }),
        r is Ok <==> reply is Ok && reply->Ok_0@.len() == 8,
        r is Ok && order is Little ==> ({
            let b = reply->Ok_0@;
            r->Ok_0 == (b[0] + 256 * b[1] + 65536 * b[2] + 16777216 * b[3]) + 0x1_0000_0000 * (b[4]
                + 256 * b[5] + 65536 * b[6] + 16777216 * b[7])
        }),
        r is Ok && order is Big ==> ({
            let b = reply->Ok_0@;
            r->Ok_0 == (b[7] + 256 * b[6] + 65536 * b[5] + 16777216 * b[4]) + 0x1_0000_0000 * (b[3]
                + 256 * b[2] + 65536 * b[1] + 16777216 * b[0])
        }),
{
    proof {
        if reply is Ok && reply->Ok_0@.len() == 8 {
            law_u64_at(reply->Ok_0@, 0, order);
        }
    }
    match get_opt_sized(COOKIE_LEN, reply) {
        Ok(bytes) => Ok(read_u64(&bytes, 0, order)),
        Err(e) => Err(e),
    }
}

/// A wish to know where an intercepted connection was going, before the address family of its
/// socket is known.
#[derive(Clone, Copy, Debug, PartialEq, Eq, Structural)]
pub struct DestRequest;

/// The question where an intercepted connection was going.
#[derive(Clone, Copy, Debug, PartialEq, Eq, Structural)]
pub enum DestQuery {
    V4,
    V6,
}

/// Starts asking for the original destination of a connection that was intercepted by rewriting
/// its destination: [`DestRequest::on`] goes on once the socket's local address has been looked
/// up. `None` says that the platform cannot tell, which is no error.
pub fn get_original_dest(platform: Platform) -> (r: Option<DestRequest>)
    ensures
        r == (if platform is Linux {
            Some(DestRequest)
        } else {
            None
        }),
{
    match platform {
        Platform::Linux => Some(DestRequest),
        _ => None,
    }
}

impl DestRequest {
    /// Goes on with the socket's local address; `None` stands for a socket that has no internet
    /// address.
    pub fn on(self, local: Option<SocketAddr>) -> (r: Result<DestQuery, Error>)
        ensures
            r == (match local {
                None => Err::<DestQuery, Error>(
                    reported(
                        ErrorType::SocketError,
                        "failed get original dest, invalid IP socket",
                        None,
                    ),
                ),
                Some(SocketAddr::V4(_)) => Ok(DestQuery::V4),
                Some(SocketAddr::V6(_)) => Ok(DestQuery::V6),
            }),
    {
        match local {
            None => Err(
                report(ErrorType::SocketError, "failed get original dest, invalid IP socket", None),
            ),
            Some(addr) => if addr.is_ipv4() {
                Ok(DestQuery::V4)
            } else {
                Ok(DestQuery::V6)
            },
        }
    }
}

impl DestQuery {
    /// How many bytes the answer has.
    pub open spec fn len(self) -> u32 {
        match self {
            DestQuery::V4 => SOCKADDR_IN_LEN as u32,
            DestQuery::V6 => SOCKADDR_IN6_LEN as u32,
        }
    }

    /// The request that asks the question.
    pub fn request(self) -> (r: GetOpt)
        ensures
            r == (match self {
                DestQuery::V4 => GetOpt {
                    level: Level::Ip,
                    name: OptName::OriginalDst,
                    size: self.len(),
                },
                DestQuery::V6 => GetOpt {
                    level: Level::Ipv6,
                    name: OptName::Ipv6OriginalDst,
                    size: self.len(),
                },
            }),
            self is V4 ==> r.size == 16,
            self is V6 ==> r.size == 28,
    {
        match self {
            DestQuery::V4 => get_opt(Level::Ip, OptName::OriginalDst, SOCKADDR_IN_LEN as u32),
            DestQuery::V6 => get_opt(
                Level::Ipv6,
                OptName::Ipv6OriginalDst,
                SOCKADDR_IN6_LEN as u32,
            ),
        }
    }

    /// Takes the reply to [`DestQuery::request`].
    pub fn reply(self, order: ByteOrder, reply: Result<Vec<u8>, OsError>) -> (r: Result<
        Option<SocketAddr>,
        Error,
    >)
        ensures
            match sized_reply(self.len(), reply) {
                Err(e) => r == Err::<Option<SocketAddr>, Error>(
                    reported(ErrorType::SocketError, "failed to get original dest", Some(e)),
                ),
                Ok(bytes) => match self {
                    DestQuery::V4 => {
                        &&& r matches Ok(Some(SocketAddr::V4(addr)))
                        &&& is_sockaddr_in(bytes@, addr)
                    },
                    DestQuery::V6 => {
                        &&& r matches Ok(Some(SocketAddr::V6(addr)))
                        &&& is_sockaddr_in6(bytes@, order, addr)
                    },
                },
            },
            self is V4 && reply is Ok && reply->Ok_0@.len() == 16 ==> ({
                let bytes = reply->Ok_0@;
                &&& r matches Ok(Some(SocketAddr::V4(addr)))
                &&& addr.port == 256 * bytes[2] + bytes[3]
                &&& forall|i: int| 0 <= i < 4 ==> #[trigger] addr.ip@[i] == bytes[4 + i]
            }),
            self is V6 && reply is Ok && reply->Ok_0@.len() == 28 ==> ({
                let bytes = reply->Ok_0@;
                &&& r matches Ok(Some(SocketAddr::V6(addr)))
                &&& addr.port == 256 * bytes[2] + bytes[3]
                &&& forall|i: int| 0 <= i < 16 ==> #[trigger] addr.ip@[i] == bytes[8 + i]
                &&& order is Little ==> addr.flowinfo == bytes[4] + 256 * bytes[5] + 65536 * bytes[6]
                    + 16777216 * bytes[7]
                &&& order is Big ==> addr.flowinfo == bytes[7] + 256 * bytes[6] + 65536 * bytes[5]
                    + 16777216 * bytes[4]
                &&& order is Little ==> addr.scope_id == bytes[24] + 256 * bytes[25] + 65536
                    * bytes[26] + 16777216 * bytes[27]
                &&& order is Big ==> addr.scope_id == bytes[27] + 256 * bytes[26] + 65536
                    * bytes[25] + 16777216 * bytes[24]
            }),
            r is Ok <==> reply is Ok && reply->Ok_0@.len() == (if self is V4 {
                16int
            } else {
                28
            }),
    {
        proof {
            if reply is Ok && reply->Ok_0@.len() == 28 {
                law_u32_at(reply->Ok_0@, 4, order);
                law_u32_at(reply->Ok_0@, 24, order);
            }
        }
        match self {
            DestQuery::V4 => match get_opt_sized(SOCKADDR_IN_LEN as u32, reply) {
                Ok(bytes) => Ok(Some(SocketAddr::V4(read_sockaddr_in(&bytes)))),
                Err(e) => Err(
                    report(ErrorType::SocketError, "failed to get original dest", Some(e)),
                ),
            },
            DestQuery::V6 => match get_opt_sized(SOCKADDR_IN6_LEN as u32, reply) {
                Ok(bytes) => Ok(Some(SocketAddr::V6(read_sockaddr_in6(&bytes, order)))),
                Err(e) => Err(
                    report(ErrorType::SocketError, "failed to get original dest", Some(e)),
                ),
            },
        }
    }
}

/// A step that sets an option asks for exactly that option, and where that fails it is an error
/// of the given type and text, without a subject, with the failure as its cause.
pub proof fn law_opt_step(opt: SetOpt, etype: ErrorType, text: &'static str, e: OsError)
    ensures
        opt_step(opt, etype, text).call == Call::SetOpt(opt),
        fits(opt_step(opt, etype, text).on_failure, Reply::Os(e)),
        failure(opt_step(opt, etype, text).on_failure, Reply::Os(e)) matches Some(r) && {
            &&& r.etype == etype
            &&& r.context.text == text
            &&& r.context.subject == Subject::Nothing
            &&& r.cause == Some(IoError::Os(e))
        },
{
}

/// Both bounds of a range of ports can be read off the value that is handed over: as an unsigned
/// number of 32 bits it has the low bound in its low half and the high bound in its high half.
pub proof fn law_port_range_halves(low: u16, high: u16)
    ensures
        ({
            let unsigned = port_range_value(low, high) as int % 0x1_0000_0000;
            &&& unsigned % 0x1_0000 == low
            &&& unsigned / 0x1_0000 == high
        }),
{
}

/// Binding to an address that is not local is allowed by an option of the address family's own
/// level, which is switched on; Linux and FreeBSD have one each for both families, and no other
/// platform has one.
pub proof fn law_nonlocal_opt(platform: Platform, is_ipv6: bool)
    ensures
        nonlocal_opt(platform, is_ipv6) is Some <==> platform is Linux || platform is FreeBsd,
        nonlocal_opt(platform, is_ipv6) matches Some(opt) ==> {
            &&& opt.value == 1
            &&& opt.level is Ipv6 <==> is_ipv6
            &&& opt.level is Ip <==> !is_ipv6
            &&& opt.name is Transparent <==> platform is Linux && !is_ipv6
            &&& opt.name is Ipv6Transparent <==> platform is Linux && is_ipv6
            &&& opt.name is BindAny <==> platform is FreeBsd && !is_ipv6
            &&& opt.name is Ipv6BindAny <==> platform is FreeBsd && is_ipv6
        },
{
}

} // verus!
