//! Connecting, step by step.

use l4ext::addr::{SocketAddr, SocketAddrV4, SocketAddrV6};
use l4ext::connect::{
    connect, connect_uds, connect_with, inner_connect_with, BindTo, Connecting, Progress,
};
use l4ext::error::{
    cvt_linux_error, wrap_os_connect_error, Context, Errno, Error, ErrorKind, ErrorType, IoError,
    OsError, Subject,
};
use l4ext::platform::Platform;
use l4ext::script::{Call, Reply};
use l4ext::sockopt::{Level, OptName, SetOpt};

const REMOTE: SocketAddr = SocketAddr::V4(SocketAddrV4 {
    ip: [1, 1, 1, 1],
    port: 80,
});

const REMOTE_V6: SocketAddr = SocketAddr::V6(SocketAddrV6 {
    ip: [1; 16],
    port: 80,
    flowinfo: 0,
    scope_id: 0,
});

const LOCAL: SocketAddr = SocketAddr::V4(SocketAddrV4 {
    ip: [192, 0, 2, 1],
    port: 0,
});

const NOT_AVAILABLE: OsError = OsError {
    kind: ErrorKind::AddrNotAvailable,
    errno: Some(Errno::Other(99)),
};

fn opt(level: Level, name: OptName, value: i32) -> Call {
    Call::SetOpt(SetOpt { level, name, value })
}

fn full() -> BindTo {
    BindTo {
        addr: Some(LOCAL),
        port_range: Some((1000, 2000)),
        fallback: true,
        bind_nonlocal: true,
        so_mark: Some(1),
    }
}

fn no_port() -> Call {
    opt(Level::Ip, OptName::BindAddressNoPort, 1)
}

fn range() -> Call {
    opt(Level::Ip, OptName::LocalPortRange, 1000 + 2000 * 65536)
}

/// Every call of one attempt whose calls all succeed.
fn plan(platform: Platform, addr: &SocketAddr, bind_to: Option<&BindTo>) -> Vec<Call> {
    let mut script = inner_connect_with(platform, addr, bind_to);
    let mut calls = vec![];
    while let Some(call) = script.next() {
        calls.push(call);
        script.feed(Reply::Done).unwrap();
    }
    calls
}

/// Answers every call with success until `stop` is asked for.
fn run_until(c: &mut Connecting, stop: Call) {
    while c.next() != Some(stop) {
        match c.feed(Reply::Done) {
            Progress::Perform(next) => assert_eq!(c.next(), Some(next)),
            other => panic!("{other:?}"),
        }
    }
}

#[test]
fn full_linux_plan() {
    assert_eq!(
        plan(Platform::Linux, &REMOTE, Some(&full())),
        vec![
            Call::OpenSocket { ipv6: false },
            no_port(),
            opt(Level::Ip, OptName::Transparent, 1),
            opt(Level::Socket, OptName::Mark, 1),
            range(),
            Call::ReuseAddr(true),
            Call::Bind(LOCAL),
            Call::Tune,
            Call::Connect(REMOTE),
        ]
    );
}

#[test]
fn family_is_that_of_the_remote_address() {
    let calls = plan(Platform::Linux, &REMOTE_V6, Some(&full()));
    assert_eq!(calls[0], Call::OpenSocket { ipv6: true });
    assert_eq!(calls[2], opt(Level::Ipv6, OptName::Ipv6Transparent, 1));
}

#[test]
fn plans_of_other_platforms() {
    assert_eq!(
        plan(Platform::FreeBsd, &REMOTE, Some(&full())),
        vec![
            Call::OpenSocket { ipv6: false },
            opt(Level::Ip, OptName::BindAny, 1),
            Call::ReuseAddr(true),
            Call::Bind(LOCAL),
            Call::Tune,
            Call::Connect(REMOTE),
        ]
    );
    for platform in [Platform::OtherUnix, Platform::Windows] {
        assert_eq!(
            plan(platform, &REMOTE, Some(&full())),
            vec![
                Call::OpenSocket { ipv6: false },
                Call::ReuseAddr(true),
                Call::Bind(LOCAL),
                Call::Tune,
                Call::Connect(REMOTE),
            ]
        );
    }
}

#[test]
fn nothing_to_bind_to() {
    let expected = vec![
        Call::OpenSocket { ipv6: false },
        no_port(),
        Call::Tune,
        Call::Connect(REMOTE),
    ];
    assert_eq!(plan(Platform::Linux, &REMOTE, None), expected);
    assert_eq!(plan(Platform::Linux, &REMOTE, Some(&BindTo::default())), expected);
}

#[test]
fn success_at_the_first_attempt() {
    let bind_to = full();
    let mut c = connect(Platform::Linux, &REMOTE, Some(&bind_to));
    run_until(&mut c, Call::Connect(REMOTE));
    assert_eq!(c.feed(Reply::Done), Progress::Connected);
    assert_eq!(c.next(), None);
}

#[test]
fn fallback_drops_the_range_and_keeps_the_rest() {
    for failing in [Call::Bind(LOCAL), Call::Connect(REMOTE)] {
        let bind_to = full();
        let mut c = connect_with(Platform::Linux, &REMOTE, Some(&bind_to));
        run_until(&mut c, failing);
        let first = Call::OpenSocket { ipv6: false };
        assert_eq!(c.feed(Reply::Os(NOT_AVAILABLE)), Progress::Perform(first));
        let mut calls = vec![first];
        while calls.last() != Some(&Call::Connect(REMOTE)) {
            match c.feed(Reply::Done) {
                Progress::Perform(call) => calls.push(call),
                other => panic!("{other:?}"),
            }
        }
        let mut expected = plan(Platform::Linux, &REMOTE, Some(&full()));
        expected.retain(|call| *call != range());
        assert_eq!(calls, expected);
        // there is no third attempt
        match c.feed(Reply::Os(NOT_AVAILABLE)) {
            Progress::Failed(e) => assert_eq!(e.etype, ErrorType::BindError),
            other => panic!("{other:?}"),
        }
    }
}

#[test]
fn fallback_needs_the_setting_and_a_range() {
    let no_setting = BindTo { fallback: false, ..full() };
    let no_range = BindTo { port_range: None, ..full() };
    assert!(full().will_fallback());
    assert!(!no_setting.will_fallback());
    assert!(!no_range.will_fallback());
    for bind_to in [no_setting, no_range] {
        let mut c = connect(Platform::Linux, &REMOTE, Some(&bind_to));
        run_until(&mut c, Call::Bind(LOCAL));
        assert_eq!(
            c.feed(Reply::Os(NOT_AVAILABLE)),
            Progress::Failed(Error {
                etype: ErrorType::BindError,
                context: Context {
                    text: "failed to bind to socket ",
                    subject: Subject::Addr(LOCAL)
                },
                cause: Some(IoError::Os(NOT_AVAILABLE)),
            })
        );
    }
}

#[test]
fn other_errors_are_not_retried() {
    let refused = OsError { kind: ErrorKind::ConnectionRefused, errno: None };
    let bind_to = full();
    let mut c = connect(Platform::Linux, &REMOTE, Some(&bind_to));
    run_until(&mut c, Call::Connect(REMOTE));
    assert_eq!(
        c.feed(Reply::Os(refused)),
        Progress::Failed(Error {
            etype: ErrorType::ConnectRefused,
            context: Context {
                text: "Fail to connect to ",
                subject: Subject::Addr(REMOTE)
            },
            cause: Some(IoError::Os(refused)),
        })
    );
}

#[test]
fn every_set_up_step_has_its_own_context() {
    let e = OsError { kind: ErrorKind::PermissionDenied, errno: Some(Errno::Other(1)) };
    let texts = [
        "failed to create socket",
        "failed to set socket opts IP_BIND_ADDRESS_NO_PORT",
        "failed to set socket opts IP_TRANSPARENT/IP_BINDANY",
        "failed to set socket opts SO_MARK",
        "failed to set socket opts IP_LOCAL_PORT_RANGE",
        "failed to set socket opts SO_REUSEADDR",
    ];
    let bind_to = full();
    for (i, text) in texts.iter().enumerate() {
        let mut c = connect(Platform::Linux, &REMOTE, Some(&bind_to));
        for _ in 0..i {
            c.feed(Reply::Done);
        }
        match c.feed(Reply::Os(e)) {
            Progress::Failed(error) => {
                assert_eq!(error.etype, ErrorType::SocketError);
                assert_eq!(error.context.text, *text);
                assert_eq!(error.context.subject, Subject::Nothing);
            }
            other => panic!("{other:?}"),
        }
    }
}

#[test]
fn a_system_without_port_ranges_goes_without() {
    let unknown = OsError { kind: ErrorKind::Other, errno: Some(Errno::NoProtoOpt) };
    let bind_to = full();
    let mut c = connect(Platform::Linux, &REMOTE, Some(&bind_to));
    run_until(&mut c, range());
    assert_eq!(c.feed(Reply::Os(unknown)), Progress::Perform(Call::ReuseAddr(true)));
    // the other options are not optional
    let mut c = connect(Platform::Linux, &REMOTE, Some(&bind_to));
    run_until(&mut c, no_port());
    assert!(matches!(c.feed(Reply::Os(unknown)), Progress::Failed(_)));
}

#[test]
fn the_hook_fails_with_its_own_error() {
    let own = || Error {
        etype: ErrorType::InternalError,
        context: Context { text: "hook", subject: Subject::Nothing },
        cause: None,
    };
    let bind_to = full();
    let mut c = connect_with(Platform::Linux, &REMOTE, Some(&bind_to));
    run_until(&mut c, Call::Tune);
    assert_eq!(c.feed(Reply::Hook(own())), Progress::Failed(own()));
}

#[test]
fn second_attempts_bind_as_the_platform_can() {
    let kept = full().reset_port_range(Platform::Linux);
    assert_eq!(kept, BindTo { port_range: None, fallback: false, ..full() });
    let kept = full().reset_port_range(Platform::FreeBsd);
    assert_eq!(kept, BindTo { port_range: None, fallback: false, so_mark: None, ..full() });
    let kept = full().reset_port_range(Platform::Windows);
    assert_eq!(kept, BindTo { addr: Some(LOCAL), ..BindTo::default() });
}

#[test]
fn bind_to_is_set_up() {
    let mut bind_to = BindTo::default();
    assert_eq!(bind_to.addr, None);
    assert_eq!(bind_to.port_range, None);
    bind_to.set_ip_transparent(true);
    bind_to.set_so_mark(Some(9));
    assert_eq!(
        bind_to,
        BindTo { bind_nonlocal: true, so_mark: Some(9), ..BindTo::default() }
    );
}

#[test]
fn connect_errors_are_told_apart() {
    let etype = |kind, errno| {
        let context = Context { text: "x", subject: Subject::Nothing };
        let e = OsError { kind, errno };
        let wrapped = wrap_os_connect_error(e, context);
        assert_eq!(wrapped.cause, Some(IoError::Os(e)));
        assert_eq!(wrapped.context.text, "x");
        wrapped.etype
    };
    assert_eq!(etype(ErrorKind::ConnectionRefused, None), ErrorType::ConnectRefused);
    assert_eq!(etype(ErrorKind::TimedOut, None), ErrorType::ConnectTimedout);
    assert_eq!(etype(ErrorKind::AddrNotAvailable, None), ErrorType::BindError);
    assert_eq!(etype(ErrorKind::PermissionDenied, None), ErrorType::InternalError);
    assert_eq!(etype(ErrorKind::AddrInUse, None), ErrorType::InternalError);
    let other = ErrorKind::Other;
    assert_eq!(etype(other, Some(Errno::NetUnreach)), ErrorType::ConnectNoRoute);
    assert_eq!(etype(other, Some(Errno::HostUnreach)), ErrorType::ConnectNoRoute);
    assert_eq!(etype(other, Some(Errno::NoProtoOpt)), ErrorType::ConnectError);
    assert_eq!(etype(other, Some(Errno::Other(5))), ErrorType::ConnectError);
    assert_eq!(etype(other, None), ErrorType::ConnectError);
    // the kind decides first
    assert_eq!(etype(ErrorKind::TimedOut, Some(Errno::NetUnreach)), ErrorType::ConnectTimedout);
}

#[test]
fn unix_sockets_name_their_path() {
    assert_eq!(connect_uds("/tmp/x.sock".to_string(), Ok(())), Ok(()));
    let e = OsError { kind: ErrorKind::ConnectionRefused, errno: None };
    let error = connect_uds("/tmp/x.sock".to_string(), Err(e)).unwrap_err();
    assert_eq!(error.etype, ErrorType::ConnectRefused);
    assert_eq!(error.context.text, "Fail to connect to ");
    assert_eq!(error.context.subject, Subject::Path("/tmp/x.sock".to_string()));
}

#[test]
fn minus_one_is_failure() {
    assert_eq!(cvt_linux_error(-1, NOT_AVAILABLE), Err(NOT_AVAILABLE));
    assert_eq!(cvt_linux_error(0, NOT_AVAILABLE), Ok(0));
    assert_eq!(cvt_linux_error(-2, NOT_AVAILABLE), Ok(-2));
}
