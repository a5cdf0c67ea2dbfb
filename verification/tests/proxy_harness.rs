//! The transparent-proxy harness.

use l4ext::addr::{SocketAddr, SocketAddrV4, SocketAddrV6};
use l4ext::connect::BindTo;
use l4ext::error::{ErrorKind, OsError};
use l4ext::harness::{
    ipv6_transparent_reply, peer_line, proxy_nat_line, proxy_tproxy, set_ipv6_transparent,
    upstream_line, upstream_spoof, ListenCall,
};
use l4ext::sockopt::{Level, OptName, SetOpt};

const V4: SocketAddr = SocketAddr::V4(SocketAddrV4 {
    ip: [0, 0, 0, 0],
    port: 50080,
});

const V6: SocketAddr = SocketAddr::V6(SocketAddrV6 {
    ip: [0; 16],
    port: 50080,
    flowinfo: 0,
    scope_id: 0,
});

fn shown(addr: &SocketAddr) -> (Vec<ListenCall>, Vec<&'static str>) {
    proxy_tproxy(addr).into_iter().map(|s| (s.call, s.complaint)).unzip()
}

#[test]
fn listener_on_v4() {
    let (calls, complaints) = shown(&V4);
    assert_eq!(
        calls,
        vec![
            ListenCall::OpenSocket { ipv6: false },
            ListenCall::TransparentV4(true),
            ListenCall::ReuseAddr(true),
            ListenCall::Bind(V4),
            ListenCall::Listen(128),
        ]
    );
    assert_eq!(
        complaints,
        vec![
            "socket",
            "set IP_TRANSPARENT (needs CAP_NET_ADMIN)",
            "reuseaddr",
            "tproxy bind",
            "listen",
        ]
    );
}

#[test]
fn listener_on_v6() {
    let (calls, complaints) = shown(&V6);
    assert_eq!(
        calls,
        vec![
            ListenCall::OpenSocket { ipv6: true },
            ListenCall::OnlyV6(true),
            ListenCall::SetOpt(set_ipv6_transparent()),
            ListenCall::ReuseAddr(true),
            ListenCall::Bind(V6),
            ListenCall::Listen(128),
        ]
    );
    assert_eq!(complaints[1], "set IPV6_V6ONLY");
    assert_eq!(complaints[2], "set IPV6_TRANSPARENT (needs CAP_NET_ADMIN)");
}

#[test]
fn ipv6_transparency() {
    assert_eq!(
        set_ipv6_transparent(),
        SetOpt { level: Level::Ipv6, name: OptName::Ipv6Transparent, value: 1 }
    );
    let e = OsError { kind: ErrorKind::PermissionDenied, errno: None };
    assert_eq!(ipv6_transparent_reply(0, e), Ok(()));
    assert_eq!(ipv6_transparent_reply(-1, e), Err(e));
    assert_eq!(ipv6_transparent_reply(1, e), Err(e));
}

#[test]
fn spoofed_source() {
    assert_eq!(
        upstream_spoof(V4),
        BindTo { addr: Some(V4), bind_nonlocal: true, ..BindTo::default() }
    );
}

#[test]
fn result_lines() {
    assert_eq!(peer_line("5.5.5.5:1"), "PEER=5.5.5.5:1");
    assert_eq!(proxy_nat_line(Ok(Some("9.9.9.9:80"))), "ORIGDST=9.9.9.9:80");
    assert_eq!(proxy_nat_line(Ok(None)), "ORIGDST=none");
    assert_eq!(proxy_nat_line(Err("no")), "ORIGDST=err:no");
    assert_eq!(upstream_line("5.5.5.5:0", Ok(())), "CONNECTED src=5.5.5.5:0");
    assert_eq!(upstream_line("5.5.5.5:0", Err("no")), "CONNECT_ERR=no");
}
