//! What the transparent-proxy test harness decides: how its listener is set up, where it spoofs
//! a source address, and the lines that it prints.

use vstd::prelude::*;
use vstd::string::StringExecFns;
use crate::addr::SocketAddr;
use crate::connect::BindTo;
use crate::error::OsError;
use crate::sockopt::{set_opt, Level, OptName, SetOpt};

verus! {

/// A call that sets up a listener.
#[derive(Clone, Copy, Debug, PartialEq, Eq)]
pub enum ListenCall {
    /// Make a new TCP socket of the given address family; the calls that follow are on it.
    OpenSocket { ipv6: bool },
    /// Set `IPV6_V6ONLY`.
    OnlyV6(bool),
    /// Set an option.
    SetOpt(SetOpt),
    /// Set `IP_TRANSPARENT`.
    TransparentV4(bool),
    /// Set `SO_REUSEADDR`.
    ReuseAddr(bool),
    /// Bind to a local address.
    Bind(SocketAddr),
    /// Listen, with a backlog of that many connections.
    Listen(i32),
}

/// A call that sets up a listener, with what is said when it fails. The harness then gives up.
#[derive(Clone, Copy, Debug, PartialEq, Eq)]
pub struct ListenStep {
    pub call: ListenCall,
    pub complaint: &'static str,
}

/// How many connections may wait to be accepted.
pub const BACKLOG: i32 = 128;

/// The request that sets `IPV6_TRANSPARENT`.
pub fn set_ipv6_transparent() -> (r: SetOpt)
    ensures
        r == (SetOpt { level: Level::Ipv6, name: OptName::Ipv6Transparent, value: 1 }),
{
    set_opt(Level::Ipv6, OptName::Ipv6Transparent, 1)
}

/// Reads the return value of the request of [`set_ipv6_transparent`]: anything but 0 says that
/// it failed, with `last_os_error` as the reason.
pub fn ipv6_transparent_reply(ret: i32, last_os_error: OsError) -> (r: Result<(), OsError>)
    ensures
        r == (if ret != 0 {
            Err::<(), OsError>(last_os_error)
        } else {
            Ok(())
        }),
{
    if ret != 0 {
        return Err(last_os_error);
    }
    Ok(())
}

/// The steps that make a listener's socket transparent. The families are kept apart: a listener
/// on an IPv6 address takes no IPv4 connections.
pub open spec fn transparent_steps(addr: SocketAddr) -> Seq<ListenStep> {
    if addr is V6 {
        seq![
            ListenStep { call: ListenCall::OnlyV6(true), complaint: "set IPV6_V6ONLY" },
            ListenStep {
                call: ListenCall::SetOpt(
                    SetOpt { level: Level::Ipv6, name: OptName::Ipv6Transparent, value: 1 },
                ),
                complaint: "set IPV6_TRANSPARENT (needs CAP_NET_ADMIN)",
            },
        ]
    } else {
        seq![
            ListenStep {
                call: ListenCall::TransparentV4(true),
                complaint: "set IP_TRANSPARENT (needs CAP_NET_ADMIN)",
            },
        ]
    }
}

/// The steps that set up a transparent listener.
pub open spec fn listener_steps(addr: SocketAddr) -> Seq<ListenStep> {
    seq![
        ListenStep { call: ListenCall::OpenSocket { ipv6: addr is V6 }, complaint: "socket" },
    ] + transparent_steps(addr) + seq![
        ListenStep { call: ListenCall::ReuseAddr(true), complaint: "reuseaddr" },
        ListenStep { call: ListenCall::Bind(addr), complaint: "tproxy bind" },
        ListenStep { call: ListenCall::Listen(BACKLOG), complaint: "listen" },
    ]
}

/// Plans a transparent listener.
pub fn proxy_tproxy(addr: &SocketAddr) -> (steps: Vec<ListenStep>)
    ensures
        steps@ == listener_steps(*addr),
{
    let v6: bool = addr.is_ipv6();
    let mut steps: Vec<ListenStep> = Vec::new();
    steps.push(ListenStep { call: ListenCall::OpenSocket { ipv6: v6 }, complaint: "socket" });
    if v6 {
        steps.push(ListenStep { call: ListenCall::OnlyV6(true), complaint: "set IPV6_V6ONLY" });
        steps.push(
            ListenStep {
                call: ListenCall::SetOpt(set_ipv6_transparent()),
                complaint: "set IPV6_TRANSPARENT (needs CAP_NET_ADMIN)",
            },
        );
    } else {
        steps.push(
            ListenStep {
                call: ListenCall::TransparentV4(true),
                complaint: "set IP_TRANSPARENT (needs CAP_NET_ADMIN)",
            },
        );
    }
    steps.push(ListenStep { call: ListenCall::ReuseAddr(true), complaint: "reuseaddr" });
    steps.push(ListenStep { call: ListenCall::Bind(*addr), complaint: "tproxy bind" });
    steps.push(ListenStep { call: ListenCall::Listen(BACKLOG), complaint: "listen" });
    assert(steps@ =~= listener_steps(*addr));
    steps
}

/// Where a connection is bound that is to look as if it came from `src`.
pub fn upstream_spoof(src: SocketAddr) -> (b: BindTo)
    ensures
        b == (BindTo { addr: Some(src), bind_nonlocal: true, ..BindTo::anywhere() }),
        b.addr == Some(src),
        b.bind_nonlocal,
        b.port_range is None,
        !b.fallback,
        b.so_mark is None,
{
    let mut bind_to = BindTo::default();
    bind_to.addr = Some(src);
    bind_to.set_ip_transparent(true);
    bind_to
}

/// The line that says whom the backend saw.
pub fn peer_line(peer: &str) -> (line: String)
    ensures
        line@ == "PEER="@ + peer@,
{
    String::from_str("PEER=").concat(peer)
}

/// The line that says where a connection was going: an address, nothing known, or an error, each
/// as it is shown.
pub fn proxy_nat_line(dest: Result<Option<&str>, &str>) -> (line: String)
    ensures
        line@ == "ORIGDST="@ + (match dest {
            Ok(Some(orig)) => orig@,
            Ok(None) => "none"@,
            Err(e) => "err:"@ + e@,
        }),
{
    let line: String = String::from_str("ORIGDST=");
    match dest {
        Ok(Some(orig)) => line.concat(orig),
        Ok(None) => line.concat("none"),
        Err(e) => {
            let tail: String = String::from_str("err:").concat(e);
            line.concat(tail.as_str())
        },
    }
}

/// The line that says what came of connecting from `src`.
pub fn upstream_line(src: &str, result: Result<(), &str>) -> (line: String)
    ensures
        line@ == (match result {
            Ok(()) => "CONNECTED src="@ + src@,
            Err(e) => "CONNECT_ERR="@ + e@,
        }),
{
    match result {
        Ok(()) => String::from_str("CONNECTED src=").concat(src),
        Err(e) => String::from_str("CONNECT_ERR=").concat(e),
    }
}

/// A listener's socket is opened first, of the family of the address. Then come one call that
/// makes it transparent, behind one that keeps IPv4 out where the address is an IPv6 one; the
/// permission to reuse the address; the binding to exactly that address; and the listening, with
/// a backlog of 128. Each has its own complaint.
pub proof fn law_how_a_listener_is_set_up(addr: SocketAddr)
    ensures
        ({
            let steps = listener_steps(addr);
            let n = steps.len();
            &&& n == if addr is V6 {
                6int
            } else {
                5
            }
            &&& steps[0].call == (ListenCall::OpenSocket { ipv6: addr is V6 })
            &&& steps[0].complaint == "socket"
            &&& addr is V6 ==> {
                &&& steps[1].call == ListenCall::OnlyV6(true)
                &&& steps[1].complaint == "set IPV6_V6ONLY"
                &&& steps[2].call is SetOpt
                &&& steps[2].call->SetOpt_0.level is Ipv6
                &&& steps[2].call->SetOpt_0.name is Ipv6Transparent
                &&& steps[2].call->SetOpt_0.value == 1
                &&& steps[2].complaint == "set IPV6_TRANSPARENT (needs CAP_NET_ADMIN)"
            }
            &&& addr is V4 ==> {
                &&& steps[1].call == ListenCall::TransparentV4(true)
                &&& steps[1].complaint == "set IP_TRANSPARENT (needs CAP_NET_ADMIN)"
            }
            &&& steps[n - 3].call == ListenCall::ReuseAddr(true)
            &&& steps[n - 3].complaint == "reuseaddr"
            &&& steps[n - 2].call == ListenCall::Bind(addr)
            &&& steps[n - 2].complaint == "tproxy bind"
            &&& steps[n - 1].call == ListenCall::Listen(128)
            &&& steps[n - 1].complaint == "listen"
        }),
{
}

/// A listener is transparent before it is bound, so that it can take connections to addresses
/// that are not local.
pub proof fn law_listener_transparent_before_bind(addr: SocketAddr)
    ensures
        ({
            let steps = listener_steps(addr);
            forall|j: int|
                0 <= j < steps.len() && (#[trigger] steps[j]).call is Bind ==> exists|i: int|
                    0 <= i < j && (#[trigger] steps[i]).call == (if addr is V6 {
                        ListenCall::SetOpt(
                            SetOpt {
                                level: Level::Ipv6,
                                name: OptName::Ipv6Transparent,
                                value: 1,
                            },
                        )
                    } else {
                        ListenCall::TransparentV4(true)
                    })
        }),
{
    let steps = listener_steps(addr);
    if addr is V6 {
        assert(steps[2] == transparent_steps(addr)[1]);
    } else {
        assert(steps[1] == transparent_steps(addr)[0]);
    }
}

} // verus!
