//! Setting and reading single options.

use l4ext::addr::{SocketAddr, SocketAddrV4, SocketAddrV6};
use l4ext::bytes::ByteOrder;
use l4ext::error::{Errno, Error, ErrorKind, ErrorType, IoError, OsError, Subject};
use l4ext::ext::{
    buf_reply, cookie_reply, get_original_dest, get_recv_buf, get_snd_buf, get_socket_cookie,
    ip_bind_addr_no_port, ip_local_port_range, set_bind_nonlocal, set_dscp, set_recv_buf,
    set_snd_buf, set_so_mark, set_tcp_fastopen_backlog, set_tcp_fastopen_connect, DestQuery,
};
use l4ext::platform::Platform;
use l4ext::script::{unless_unsupported, Call, Reply, Script};
use l4ext::sockopt::{
    c_int, get_opt_sized, usize_of_c_int, GetOpt, Level, OptName, SetOpt, Start,
    IP_LOCAL_PORT_RANGE,
};
use tokio::net::TcpSocket;

const PLATFORMS: [Platform; 4] = [
    Platform::Linux,
    Platform::FreeBsd,
    Platform::OtherUnix,
    Platform::Windows,
];

const REFUSED: OsError = OsError {
    kind: ErrorKind::PermissionDenied,
    errno: Some(Errno::Other(1)),
};

const V4: SocketAddr = SocketAddr::V4(SocketAddrV4 {
    ip: [127, 0, 0, 1],
    port: 80,
});

const V6: SocketAddr = SocketAddr::V6(SocketAddrV6 {
    ip: [0; 16],
    port: 80,
    flowinfo: 0,
    scope_id: 0,
});

fn native() -> ByteOrder {
    if 1u16.to_ne_bytes()[0] == 1 {
        ByteOrder::Little
    } else {
        ByteOrder::Big
    }
}

/// The only option that a script sets, and the error that it reports when that fails.
fn only_opt(mut script: Script) -> (SetOpt, Error) {
    let opt = match script.next() {
        Some(Call::SetOpt(opt)) => opt,
        other => panic!("{other:?}"),
    };
    let error = script.feed(Reply::Os(REFUSED)).unwrap_err();
    // a failed step is still to be done
    assert_eq!(script.next(), Some(Call::SetOpt(opt)));
    script.feed(Reply::Done).unwrap();
    assert_eq!(script.next(), None);
    (opt, error)
}

fn asked<T>(start: Start<T>) -> GetOpt {
    match start {
        Start::Ask(ask) => ask,
        Start::Known(_) => panic!("nothing was asked"),
    }
}

#[test]
fn test_set_recv_buf() {
    let socket = TcpSocket::new_v4().unwrap();
    let mut script = set_recv_buf(Platform::Linux, 102400);
    match script.next() {
        Some(Call::SetOpt(opt)) => {
            assert_eq!((opt.level, opt.name), (Level::Socket, OptName::RecvBuf));
            let payload = opt.payload(native());
            let size = u32::from_ne_bytes([payload[0], payload[1], payload[2], payload[3]]);
            socket.set_recv_buffer_size(size).unwrap();
            script.feed(Reply::Done).unwrap();
        }
        other => panic!("{other:?}"),
    }
    assert_eq!(script.next(), None);

    let ask = asked(get_recv_buf(Platform::Linux));
    assert_eq!((ask.level, ask.name), (Level::Socket, OptName::RecvBuf));
    let bytes = socket.recv_buffer_size().unwrap().to_ne_bytes().to_vec();
    assert_eq!(bytes.len() as u32, ask.size);
    // kernel doubles whatever is set
    assert_eq!(buf_reply(native(), Ok(bytes)).unwrap(), 102400 * 2);

    // FreeBSD reports back exactly what was set (no Linux-style doubling)
    let (opt, _) = only_opt(set_recv_buf(Platform::FreeBsd, 102400));
    let back = opt.payload(native());
    assert_eq!(buf_reply(native(), Ok(back)).unwrap(), 102400);
}

#[test]
fn test_bind_nonlocal_request_by_platform_and_family() {
    assert_eq!(
        set_bind_nonlocal(Platform::Linux, false),
        Some(SetOpt { level: Level::Ip, name: OptName::Transparent, value: 1 })
    );
    assert_eq!(
        set_bind_nonlocal(Platform::Linux, true),
        Some(SetOpt { level: Level::Ipv6, name: OptName::Ipv6Transparent, value: 1 })
    );
    assert_eq!(
        set_bind_nonlocal(Platform::FreeBsd, false),
        Some(SetOpt { level: Level::Ip, name: OptName::BindAny, value: 1 })
    );
    assert_eq!(
        set_bind_nonlocal(Platform::FreeBsd, true),
        Some(SetOpt { level: Level::Ipv6, name: OptName::Ipv6BindAny, value: 1 })
    );
    assert_eq!(set_bind_nonlocal(Platform::Windows, true), None);
}

#[test]
fn buffers_report_their_own_failure() {
    let (opt, e) = only_opt(set_recv_buf(Platform::Linux, 7));
    assert_eq!(opt, SetOpt { level: Level::Socket, name: OptName::RecvBuf, value: 7 });
    assert_eq!(e.etype, ErrorType::ConnectError);
    assert_eq!(e.context.text, "failed to set SO_RCVBUF");
    assert_eq!(e.context.subject, Subject::Nothing);
    assert_eq!(e.cause, Some(IoError::Os(REFUSED)));

    let (opt, e) = only_opt(set_snd_buf(Platform::FreeBsd, 8));
    assert_eq!(opt, SetOpt { level: Level::Socket, name: OptName::SndBuf, value: 8 });
    assert_eq!(e.context.text, "failed to set SO_SNDBUF");
}

#[test]
fn fast_open_is_for_linux() {
    let (opt, e) = only_opt(set_tcp_fastopen_connect(Platform::Linux));
    assert_eq!(opt, SetOpt { level: Level::Tcp, name: OptName::FastOpenConnect, value: 1 });
    assert_eq!(e.etype, ErrorType::ConnectError);
    assert_eq!(e.context.text, "failed to set TCP_FASTOPEN_CONNECT");

    let (opt, e) = only_opt(set_tcp_fastopen_backlog(Platform::Linux, 256));
    assert_eq!(opt, SetOpt { level: Level::Tcp, name: OptName::FastOpen, value: 256 });
    assert_eq!(e.context.text, "failed to set TCP_FASTOPEN");

    for platform in [Platform::FreeBsd, Platform::OtherUnix, Platform::Windows] {
        assert_eq!(set_tcp_fastopen_connect(platform).next(), None);
        assert_eq!(set_tcp_fastopen_backlog(platform, 256).next(), None);
    }
}

#[test]
fn other_platforms_are_left_alone() {
    for platform in [Platform::OtherUnix, Platform::Windows] {
        assert_eq!(set_recv_buf(platform, 1).next(), None);
        assert_eq!(set_snd_buf(platform, 1).next(), None);
        assert_eq!(get_recv_buf(platform), Start::Known(0));
        assert_eq!(get_snd_buf(platform), Start::Known(0));
        assert_eq!(set_dscp(platform, 1), None);
    }
    assert_eq!(get_socket_cookie(Platform::FreeBsd), Start::Known(0));
    assert_eq!(get_socket_cookie(Platform::OtherUnix), Start::Known(0));
}

#[test]
fn linux_only_requests() {
    for platform in PLATFORMS {
        let linux = platform == Platform::Linux;
        assert_eq!(ip_bind_addr_no_port(platform, true).is_some(), linux);
        assert_eq!(ip_local_port_range(platform, 1, 2).is_some(), linux);
        assert_eq!(set_so_mark(platform, 1).is_some(), linux);
        assert_eq!(get_original_dest(platform).is_some(), linux);
    }
    assert_eq!(
        ip_bind_addr_no_port(Platform::Linux, false),
        Some(SetOpt { level: Level::Ip, name: OptName::BindAddressNoPort, value: 0 })
    );
    assert_eq!(
        set_so_mark(Platform::Linux, 0xffff_fffe),
        Some(SetOpt { level: Level::Socket, name: OptName::Mark, value: -2 })
    );
}

#[test]
fn port_range_packs_both_bounds() {
    assert_eq!(IP_LOCAL_PORT_RANGE, 51);
    let value = |low, high| ip_local_port_range(Platform::Linux, low, high).unwrap().value;
    assert_eq!(value(0, 0), 0);
    assert_eq!(value(1, 2), 0x0002_0001);
    assert_eq!(value(0xffff, 0x7fff), 0x7fff_ffff);
    assert_eq!(value(40000, 50000), (40000u32 | (50000u32 << 16)) as i32);
    assert_eq!(value(1, 0x8000) as u32, 0x8000_0001);
    // a range is not its reverse
    assert_ne!(value(1, 2), value(2, 1));
}

#[test]
fn unknown_option_is_no_error() {
    let unknown = OsError { kind: ErrorKind::Other, errno: Some(Errno::NoProtoOpt) };
    assert_eq!(unless_unsupported(Err(unknown)), Ok(()));
    assert_eq!(unless_unsupported(Err(REFUSED)), Err(REFUSED));
    assert_eq!(unless_unsupported(Ok(())), Ok(()));
}

#[test]
fn casts_keep_the_low_bits() {
    for n in [0u64, 1, 0x7fff_ffff, 0x8000_0000, 0xffff_ffff, 0x1_0000_0000, u64::MAX] {
        assert_eq!(c_int(n as u128), n as i32);
    }
    assert_eq!(c_int(u128::MAX), -1);
    for v in [0i32, 1, i32::MAX, -1, i32::MIN] {
        assert_eq!(usize_of_c_int(v), v as usize);
    }
}

#[test]
fn payload_is_the_machine_s_int() {
    for value in [0i32, 1, -1, i32::MIN, i32::MAX, 0x0102_0304] {
        let opt = SetOpt { level: Level::Ip, name: OptName::Tos, value };
        assert_eq!(opt.payload(ByteOrder::Little), value.to_le_bytes().to_vec());
        assert_eq!(opt.payload(ByteOrder::Big), value.to_be_bytes().to_vec());
    }
}

#[test]
fn replies_of_another_size_are_refused() {
    let mismatch = IoError::Other("get_opt size mismatch");
    assert_eq!(get_opt_sized(4, Ok(vec![0; 3])), Err(mismatch));
    assert_eq!(get_opt_sized(4, Ok(vec![0; 5])), Err(mismatch));
    assert_eq!(get_opt_sized(4, Ok(vec![1, 2, 3, 4])), Ok(vec![1, 2, 3, 4]));
    assert_eq!(get_opt_sized(4, Err(REFUSED)), Err(IoError::Os(REFUSED)));
    assert_eq!(buf_reply(ByteOrder::Little, Ok(vec![0; 8])), Err(mismatch));
    assert_eq!(cookie_reply(ByteOrder::Little, Ok(vec![0; 4])), Err(mismatch));
}

#[test]
fn buffer_sizes_and_cookies_are_read() {
    assert_eq!(buf_reply(ByteOrder::Little, Ok(vec![0, 4, 0, 0])), Ok(1024));
    assert_eq!(buf_reply(ByteOrder::Big, Ok(vec![0, 0, 4, 0])), Ok(1024));
    assert_eq!(buf_reply(ByteOrder::Big, Ok(vec![0xff; 4])), Ok(usize::MAX));
    let ask = asked(get_snd_buf(Platform::FreeBsd));
    assert_eq!(ask, GetOpt { level: Level::Socket, name: OptName::SndBuf, size: 4 });

    let ask = asked(get_socket_cookie(Platform::Linux));
    assert_eq!(ask, GetOpt { level: Level::Socket, name: OptName::Cookie, size: 8 });
    let cookie = 0x0102_0304_0506_0708u64;
    assert_eq!(cookie_reply(ByteOrder::Little, Ok(cookie.to_le_bytes().to_vec())), Ok(cookie));
    assert_eq!(cookie_reply(ByteOrder::Big, Ok(cookie.to_be_bytes().to_vec())), Ok(cookie));
}

#[test]
fn dscp_follows_the_family() {
    let request = set_dscp(Platform::Linux, 0xb8).unwrap();
    let (opt, e) = only_opt(request.on(Some(V4)).ok().unwrap());
    assert_eq!(opt, SetOpt { level: Level::Ip, name: OptName::Tos, value: 0xb8 });
    assert_eq!(e.etype, ErrorType::SocketError);
    assert_eq!(e.context.text, "failed to set dscp (IP_TOS)");

    let (opt, e) = only_opt(request.on(Some(V6)).ok().unwrap());
    assert_eq!(opt, SetOpt { level: Level::Ipv6, name: OptName::Ipv6TrafficClass, value: 0xb8 });
    assert_eq!(e.context.text, "failed to set dscp (IPV6_TCLASS)");

    let e = request.on(None).err().unwrap();
    assert_eq!(e.etype, ErrorType::SocketError);
    assert_eq!(e.context.text, "failed to set dscp, invalid IP socket");
    assert_eq!(e.cause, None);
}

#[test]
fn original_dest_v4() {
    let query = get_original_dest(Platform::Linux).unwrap().on(Some(V4)).unwrap();
    assert_eq!(query, DestQuery::V4);
    let ask = query.request();
    assert_eq!(ask, GetOpt { level: Level::Ip, name: OptName::OriginalDst, size: 16 });
    assert_eq!(ask.size as usize, std::mem::size_of::<libc::sockaddr_in>());
    let mut bytes = vec![0u8; 16];
    bytes[2..4].copy_from_slice(&443u16.to_be_bytes());
    bytes[4..8].copy_from_slice(&[5, 6, 7, 8]);
    let expected = SocketAddr::V4(SocketAddrV4 { ip: [5, 6, 7, 8], port: 443 });
    for order in [ByteOrder::Little, ByteOrder::Big] {
        assert_eq!(query.reply(order, Ok(bytes.clone())), Ok(Some(expected)));
    }
}

#[test]
fn original_dest_v6() {
    let query = get_original_dest(Platform::Linux).unwrap().on(Some(V6)).unwrap();
    let ask = query.request();
    assert_eq!(ask, GetOpt { level: Level::Ipv6, name: OptName::Ipv6OriginalDst, size: 28 });
    assert_eq!(ask.size as usize, std::mem::size_of::<libc::sockaddr_in6>());
    let ip = [0x20, 0x01, 0x0d, 0xb8, 0, 0, 0, 0, 0, 0, 0, 0, 0, 0, 0, 1];
    let mut bytes = vec![0u8; 28];
    bytes[2..4].copy_from_slice(&8080u16.to_be_bytes());
    bytes[4..8].copy_from_slice(&7u32.to_le_bytes());
    bytes[8..24].copy_from_slice(&ip);
    bytes[24..28].copy_from_slice(&3u32.to_le_bytes());
    let expected = SocketAddr::V6(SocketAddrV6 { ip, port: 8080, flowinfo: 7, scope_id: 3 });
    assert_eq!(query.reply(ByteOrder::Little, Ok(bytes)), Ok(Some(expected)));
}

#[test]
fn original_dest_failures() {
    let request = get_original_dest(Platform::Linux).unwrap();
    let e = request.on(None).unwrap_err();
    assert_eq!(e.etype, ErrorType::SocketError);
    assert_eq!(e.context.text, "failed get original dest, invalid IP socket");
    assert_eq!(e.cause, None);

    // no conntrack entry: the connection was not redirected
    let missing = OsError { kind: ErrorKind::Other, errno: Some(Errno::Other(2)) };
    let e = DestQuery::V4.reply(ByteOrder::Little, Err(missing)).unwrap_err();
    assert_eq!(e.etype, ErrorType::SocketError);
    assert_eq!(e.context.text, "failed to get original dest");
    assert_eq!(e.cause, Some(IoError::Os(missing)));

    let e = DestQuery::V6.reply(ByteOrder::Little, Ok(vec![0; 16])).unwrap_err();
    assert_eq!(e.cause, Some(IoError::Other("get_opt size mismatch")));
}
