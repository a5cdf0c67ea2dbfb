//! TCP keepalive.

use l4ext::error::{ErrorKind, ErrorType, IoError, OsError};
use l4ext::keepalive::{
    decimal_text, set_keepalive, set_so_keepalive, set_so_keepalive_user_timeout,
    set_tcp_keepalive, show_keepalive, TcpKeepalive,
};
use l4ext::platform::Platform;
use l4ext::script::{Call, Reply};
use l4ext::sockopt::{Level, OptName, SetOpt};
use l4ext::time::Duration;

fn settings() -> TcpKeepalive {
    TcpKeepalive {
        idle: Duration::new(60, 999_999_999),
        interval: Duration::from_millis(5_900),
        count: 5,
        user_timeout: Duration::new(1, 500_999_999),
    }
}

fn opt(level: Level, name: OptName, value: i32) -> SetOpt {
    SetOpt { level, name, value }
}

fn linux_opts() -> Vec<SetOpt> {
    vec![
        opt(Level::Socket, OptName::KeepAlive, 1),
        opt(Level::Tcp, OptName::KeepIdle, 60),
        opt(Level::Tcp, OptName::KeepInterval, 5),
        opt(Level::Tcp, OptName::KeepCount, 5),
        opt(Level::Tcp, OptName::UserTimeout, 1500),
    ]
}

#[test]
fn linux_sets_five_options_in_order() {
    assert_eq!(set_keepalive(Platform::Linux, &settings()), linux_opts());
}

#[test]
fn freebsd_has_no_user_timeout() {
    assert_eq!(set_keepalive(Platform::FreeBsd, &settings()), linux_opts()[..4].to_vec());
    assert_eq!(set_keepalive(Platform::OtherUnix, &settings()), vec![]);
    assert_eq!(set_keepalive(Platform::Windows, &settings()), vec![]);
}

#[test]
fn values_are_cast_to_int() {
    let ka = TcpKeepalive {
        idle: Duration::from_secs(0x1_0000_0003),
        interval: Duration::from_secs(0x8000_0000),
        count: usize::MAX,
        user_timeout: Duration::from_secs(u64::MAX),
    };
    let values: Vec<i32> = set_keepalive(Platform::Linux, &ka).iter().map(|o| o.value).collect();
    let millis = (u64::MAX as u128 * 1000) as i32;
    assert_eq!(values, vec![1, 3, i32::MIN, -1, millis]);
    assert_eq!(set_so_keepalive(false).value, 0);
    assert_eq!(set_so_keepalive_user_timeout(Duration::from_millis(1)).value, 1);
}

#[test]
fn every_step_reports_the_same_way() {
    let e = OsError { kind: ErrorKind::Other, errno: None };
    for failing in 0..5 {
        let mut script = set_tcp_keepalive(Platform::Linux, &settings());
        for expected in &linux_opts()[..failing] {
            assert_eq!(script.next(), Some(Call::SetOpt(*expected)));
            script.feed(Reply::Done).unwrap();
        }
        let error = script.feed(Reply::Os(e)).unwrap_err();
        assert_eq!(error.etype, ErrorType::ConnectError);
        assert_eq!(error.context.text, "failed to set keepalive");
        assert_eq!(error.cause, Some(IoError::Os(e)));
    }
}

#[test]
fn a_whole_script_succeeds() {
    let mut script = set_tcp_keepalive(Platform::Linux, &settings());
    let mut calls = vec![];
    while let Some(call) = script.next() {
        calls.push(call);
        script.feed(Reply::Done).unwrap();
    }
    let expected: Vec<Call> = linux_opts().into_iter().map(Call::SetOpt).collect();
    assert_eq!(calls, expected);
}

#[test]
fn shown_with_slashes() {
    let ka = TcpKeepalive {
        idle: Duration::from_secs(60),
        interval: Duration::from_millis(1500),
        count: 120,
        user_timeout: Duration::from_millis(20),
    };
    assert_eq!(ka.display(Platform::Linux), "60s/1.5s/120/20ms");
    assert_eq!(ka.display(Platform::FreeBsd), "60s/1.5s/120");
    let std_idle = std::time::Duration::new(7, 8);
    let ka = TcpKeepalive { idle: Duration::new(7, 8), ..ka };
    assert_eq!(ka.display(Platform::Windows), format!("{std_idle:?}/1.5s/120"));
    assert_eq!(show_keepalive("a", "b", 0, Some("c")), "a/b/0/c");
}

#[test]
fn numbers_in_decimal() {
    for n in [0usize, 9, 10, 99, 100, 1234567890, usize::MAX] {
        assert_eq!(decimal_text(n), n.to_string());
    }
}

#[test]
fn spans_agree_with_the_standard_library() {
    for (secs, nanos) in [(0, 0), (1, 999_999_999), (5, 1_000_000_000), (7, u32::MAX)] {
        let ours = Duration::new(secs, nanos);
        let theirs = std::time::Duration::new(secs, nanos);
        assert_eq!(ours.as_secs(), theirs.as_secs());
        assert_eq!(ours.subsec_nanos(), theirs.subsec_nanos());
        assert_eq!(ours.as_millis(), theirs.as_millis());
    }
    assert_eq!(Duration::from_millis(1_234), Duration::new(1, 234_000_000));
    assert_eq!(Duration::from_secs(3), Duration::new(3, 0));
}
