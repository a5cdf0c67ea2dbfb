//! TCP keepalive: its settings, how they are shown and the options that apply them.

use vstd::prelude::*;
use vstd::string::StringExecFns;
use crate::error::{ErrorType, IoError, OsError, Subject};
use crate::platform::Platform;
use crate::script::{failure, Call, OnFailure, Reply, Script, Step};
use crate::sockopt::{c_int, set_opt, to_c_int, Level, OptName, SetOpt};
use crate::time::{Duration, NANOS_PER_MILLI, NANOS_PER_SEC};

verus! {

/// The configuration for TCP keepalive.
#[derive(Clone, Copy, Debug, PartialEq, Eq)]
pub struct TcpKeepalive {
    /// The time a connection needs to be idle before TCP begins sending out keep-alive probes.
    pub idle: Duration,
    /// The time between TCP keep-alive probes.
    pub interval: Duration,
    /// The maximum number of TCP keep-alive probes to send before giving up and killing the
    /// connection.
    pub count: usize,
    /// The maximum amount of time that transmitted data may remain unacknowledged, or buffered
    /// data may remain untransmitted, before TCP forcibly closes the connection. With 0, TCP
    /// uses the system default. Only Linux has this setting.
    pub user_timeout: Duration,
}

/// The C `int` of a span's whole seconds.
pub open spec fn secs_value(d: Duration) -> i32 {
    to_c_int((d@ / NANOS_PER_SEC as nat) as int)
}

/// The C `int` of a span's whole milliseconds.
pub open spec fn millis_value(d: Duration) -> i32 {
    to_c_int((d@ / NANOS_PER_MILLI as nat) as int)
}

/// The request that switches keepalive on or off.
pub fn set_so_keepalive(val: bool) -> (r: SetOpt)
    ensures
        r == (SetOpt {
            level: Level::Socket,
            name: OptName::KeepAlive,
            value: if val {
                1
            } else {
                0
            },
        }),
{
    set_opt(
        Level::Socket,
        OptName::KeepAlive,
        if val {
            1
        } else {
            0
        },
    )
}

/// The request that sets the idle time. Only the whole seconds are used.
pub fn set_so_keepalive_idle(val: Duration) -> (r: SetOpt)
    ensures
        r == (SetOpt { level: Level::Tcp, name: OptName::KeepIdle, value: secs_value(val) }),
        (val@ / 1_000_000_000 - r.value) % 0x1_0000_0000 == 0,
{
    set_opt(Level::Tcp, OptName::KeepIdle, c_int(val.as_secs() as u128))
}

/// The request that sets the user timeout. Only the whole milliseconds are used.
pub fn set_so_keepalive_user_timeout(val: Duration) -> (r: SetOpt)
    ensures
        r == (SetOpt { level: Level::Tcp, name: OptName::UserTimeout, value: millis_value(val) }),
        (val@ / 1_000_000 - r.value) % 0x1_0000_0000 == 0,
{
    set_opt(Level::Tcp, OptName::UserTimeout, c_int(val.as_millis()))
}

/// The request that sets the time between probes. Only the whole seconds are used.
pub fn set_so_keepalive_interval(val: Duration) -> (r: SetOpt)
    ensures
        r == (SetOpt { level: Level::Tcp, name: OptName::KeepInterval, value: secs_value(val) }),
        (val@ / 1_000_000_000 - r.value) % 0x1_0000_0000 == 0,
{
    set_opt(Level::Tcp, OptName::KeepInterval, c_int(val.as_secs() as u128))
}

/// The request that sets the number of probes.
pub fn set_so_keepalive_count(val: usize) -> (r: SetOpt)
    ensures
        r == (SetOpt { level: Level::Tcp, name: OptName::KeepCount, value: to_c_int(val as int) }),
        (val - r.value) % 0x1_0000_0000 == 0,
{
    set_opt(Level::Tcp, OptName::KeepCount, c_int(val as u128))
}

/// The requests that apply `ka`, in their order: keepalive is switched on first. FreeBSD has no
/// user timeout; other platforms than Linux and FreeBSD are left alone.
pub open spec fn keepalive_opts(platform: Platform, ka: TcpKeepalive) -> Seq<SetOpt> {
    let probes = seq![
        SetOpt { level: Level::Socket, name: OptName::KeepAlive, value: 1 },
        SetOpt { level: Level::Tcp, name: OptName::KeepIdle, value: secs_value(ka.idle) },
        SetOpt { level: Level::Tcp, name: OptName::KeepInterval, value: secs_value(ka.interval) },
        SetOpt { level: Level::Tcp, name: OptName::KeepCount, value: to_c_int(ka.count as int) },
    ];
    match platform {
        Platform::Linux => probes.push(
            SetOpt {
                level: Level::Tcp,
                name: OptName::UserTimeout,
                value: millis_value(ka.user_timeout),
            },
        ),
        Platform::FreeBsd => probes,
        Platform::OtherUnix | Platform::Windows => seq![],
    }
}

/// The requests that apply `ka`.
pub fn set_keepalive(platform: Platform, ka: &TcpKeepalive) -> (opts: Vec<SetOpt>)
    ensures
        opts@ == keepalive_opts(platform, *ka),
        opts@.len() == (if platform is Linux {
            5int
        } else if platform is FreeBsd {
            4
        } else {
            0
        }),
        platform is Linux || platform is FreeBsd ==> {
            &&& opts@[0] == (SetOpt { level: Level::Socket, name: OptName::KeepAlive, value: 1 })
            &&& opts@[1].level is Tcp && opts@[1].name is KeepIdle
            &&& (ka.idle@ / 1_000_000_000 - opts@[1].value) % 0x1_0000_0000 == 0
            &&& opts@[2].level is Tcp && opts@[2].name is KeepInterval
            &&& (ka.interval@ / 1_000_000_000 - opts@[2].value) % 0x1_0000_0000 == 0
            &&& opts@[3].level is Tcp && opts@[3].name is KeepCount
            &&& (ka.count - opts@[3].value) % 0x1_0000_0000 == 0
        },
        platform is Linux ==> {
            &&& opts@[4].level is Tcp && opts@[4].name is UserTimeout
            &&& (ka.user_timeout@ / 1_000_000 - opts@[4].value) % 0x1_0000_0000 == 0
        },
{
    let mut opts: Vec<SetOpt> = Vec::new();
    if platform.is_tunable() {
        opts.push(set_so_keepalive(true));
        opts.push(set_so_keepalive_idle(ka.idle));
        opts.push(set_so_keepalive_interval(ka.interval));
        opts.push(set_so_keepalive_count(ka.count));
        if let Platform::Linux = platform {
            opts.push(set_so_keepalive_user_timeout(ka.user_timeout));
        }
    }
    assert(opts@ =~= keepalive_opts(platform, *ka));
    opts
}

/// The step that sets one option of a connection's keepalive.
pub open spec fn keepalive_step(opt: SetOpt) -> Step {
    Step {
        call: Call::SetOpt(opt),
        on_failure: OnFailure::Report(ErrorType::ConnectError, "failed to set keepalive"),
    }
}

/// The script that applies the given TCP keepalive settings to a connection.
pub fn set_tcp_keepalive(platform: Platform, ka: &TcpKeepalive) -> (script: Script)
    ensures
        script@ == keepalive_opts(platform, *ka).map_values(|opt: SetOpt| keepalive_step(opt)),
        script@.len() == (if platform is Linux {
            5int
        } else if platform is FreeBsd {
            4
        } else {
            0
        }),
        forall|i: int|
            0 <= i < script@.len() ==> (#[trigger] script@[i]).on_failure == OnFailure::Report(
                ErrorType::ConnectError,
                "failed to set keepalive",
            ),
        platform is Linux || platform is FreeBsd ==> {
            &&& script@[0].call == Call::SetOpt(
                SetOpt { level: Level::Socket, name: OptName::KeepAlive, value: 1 },
            )
            &&& (script@[1].call matches Call::SetOpt(opt) && opt.level is Tcp
                && opt.name is KeepIdle && (ka.idle@ / 1_000_000_000 - opt.value) % 0x1_0000_0000
                == 0)
            &&& (script@[2].call matches Call::SetOpt(opt) && opt.level is Tcp
                && opt.name is KeepInterval && (ka.interval@ / 1_000_000_000 - opt.value)
                % 0x1_0000_0000 == 0)
            &&& (script@[3].call matches Call::SetOpt(opt) && opt.level is Tcp
                && opt.name is KeepCount && (ka.count - opt.value) % 0x1_0000_0000 == 0)
        },
        platform is Linux ==> (script@[4].call matches Call::SetOpt(opt) && opt.level is Tcp
            && opt.name is UserTimeout && (ka.user_timeout@ / 1_000_000 - opt.value)
            % 0x1_0000_0000 == 0),
{
    let opts: Vec<SetOpt> = set_keepalive(platform, ka);
    let mut steps: Vec<Step> = Vec::new();
    let mut i: usize = 0;
    while i < opts.len()
        invariant
            i <= opts@.len(),
            steps@ == opts@.take(i as int).map_values(|opt: SetOpt| keepalive_step(opt)),
        decreases opts@.len() - i,
    {
        steps.push(
            Step {
                call: Call::SetOpt(opts[i]),
                on_failure: OnFailure::Report(ErrorType::ConnectError, "failed to set keepalive"),
            },
        );
        i = i + 1;
        assert(steps@ =~= opts@.take(i as int).map_values(|opt: SetOpt| keepalive_step(opt)));
    }
    assert(opts@.take(i as int) =~= opts@);
    Script::new(steps)
}

/// On Linux each of the five options is set exactly once, and each carries the value of its own
/// setting: the idle time and the interval in whole seconds, the count as it is, and the user
/// timeout in whole milliseconds, each cast to a C `int`. A user timeout of 0 is set as 0.
pub proof fn law_keepalive_options_carry_their_settings(ka: TcpKeepalive, opts: Seq<SetOpt>)
    requires
        opts == keepalive_opts(Platform::Linux, ka),
    ensures
        opts.len() == 5,
        forall|i: int|
            0 <= i < 5 ==> {
                let opt = #[trigger] opts[i];
                &&& opt.name is KeepAlive <==> i == 0
                &&& opt.name is KeepIdle <==> i == 1
                &&& opt.name is KeepInterval <==> i == 2
                &&& opt.name is KeepCount <==> i == 3
                &&& opt.name is UserTimeout <==> i == 4
                &&& opt.level is Socket <==> opt.name is KeepAlive
                &&& opt.level is Tcp <==> !(opt.name is KeepAlive)
                &&& opt.name is KeepAlive ==> opt.value == 1
                &&& opt.name is KeepIdle ==> (ka.idle@ / 1_000_000_000 - opt.value)
                    % 0x1_0000_0000 == 0
                &&& opt.name is KeepInterval ==> (ka.interval@ / 1_000_000_000 - opt.value)
                    % 0x1_0000_0000 == 0
                &&& opt.name is KeepCount ==> (ka.count - opt.value) % 0x1_0000_0000 == 0
                &&& opt.name is UserTimeout ==> (ka.user_timeout@ / 1_000_000 - opt.value)
                    % 0x1_0000_0000 == 0
                &&& opt.name is UserTimeout && ka.user_timeout@ == 0 ==> opt.value == 0
            },
{
    assert(opts[0].name is KeepAlive);
    assert(opts[1].name is KeepIdle);
    assert(opts[2].name is KeepInterval);
    assert(opts[3].name is KeepCount);
    assert(opts[4].name is UserTimeout);
}

/// A setting changes its own option and no other: settings that agree on one of them set the same
/// option on account of it, whatever the rest is.
pub proof fn law_keepalive_settings_are_independent(
    platform: Platform,
    a: TcpKeepalive,
    b: TcpKeepalive,
    i: int,
)
    requires
        0 <= i < keepalive_opts(platform, a).len(),
        keepalive_opts(platform, a)[i].name is KeepIdle ==> a.idle@ == b.idle@,
        keepalive_opts(platform, a)[i].name is KeepInterval ==> a.interval@ == b.interval@,
        keepalive_opts(platform, a)[i].name is KeepCount ==> a.count == b.count,
        keepalive_opts(platform, a)[i].name is UserTimeout ==> a.user_timeout@ == b.user_timeout@,
    ensures
        keepalive_opts(platform, b).len() == keepalive_opts(platform, a).len(),
        keepalive_opts(platform, b)[i] == keepalive_opts(platform, a)[i],
{
    assert(i == 0 || i == 1 || i == 2 || i == 3 || i == 4);
}

/// A step of keepalive asks for exactly its option, and its failure is a `ConnectError`.
pub proof fn law_keepalive_step(opt: SetOpt, e: OsError)
    ensures
        keepalive_step(opt).call == Call::SetOpt(opt),
        failure(keepalive_step(opt).on_failure, Reply::Os(e)) matches Some(r) && {
            &&& r.etype is ConnectError
            &&& r.context.text == "failed to set keepalive"
            &&& r.context.subject == Subject::Nothing
            &&& r.cause == Some(IoError::Os(e))
        },
{
}

/// How the standard library shows a span of `secs` seconds and `nanos` nanoseconds for
/// debugging: a number with its unit, such as `1.5s` or `20ms`.
pub uninterp spec fn duration_debug(secs: u64, nanos: u32) -> Seq<char>;

/// The standard library's `Debug` of `core::time::Duration`. Trusted: the text depends on the
/// seconds and the nanoseconds alone.
#[verifier::external_body]
fn debug_duration(secs: u64, nanos: u32) -> (text: String)
    requires
        nanos < NANOS_PER_SEC,
    ensures
        text@ == duration_debug(secs, nanos),
{
    format!("{:?}", core::time::Duration::new(secs, nanos))
}

/// How a span is shown.
pub open spec fn shown(d: Duration) -> Seq<char> {
    duration_debug((d@ / NANOS_PER_SEC as nat) as u64, (d@ % NANOS_PER_SEC as nat) as u32)
}

/// A decimal digit.
pub open spec fn digit(n: nat) -> char {
    ('0' as u8 + n) as char
}

/// The decimal digits of a number, without leading zeros.
pub open spec fn decimal(n: nat) -> Seq<char>
    decreases n,
{
    if n < 10 {
        seq![digit(n)]
    } else {
        decimal(n / 10).push(digit(n % 10))
    }
}

/// Appending a digit to a number that is not 0 appends it to what is written; a number of one
/// digit is that digit.
pub proof fn law_decimal_digits(n: nat, d: nat)
    requires
        d < 10,
    ensures
        decimal(d) == seq![(48 + d) as char],
        n > 0 ==> decimal(10 * n + d) == decimal(n).push((48 + d) as char),
{
}

/// Writes a number in decimal.
pub fn decimal_text(n: usize) -> (text: String)
    ensures
        text@ == decimal(n as nat),
    decreases n,
{
    let last: usize = n % 10;
    let digit_text: &str = match last {
        0 => "0",
        1 => "1",
        2 => "2",
        3 => "3",
        4 => "4",
        5 => "5",
        6 => "6",
        7 => "7",
        8 => "8",
        _ => "9",
    };
    proof {
        reveal_strlit("0");
        reveal_strlit("1");
        reveal_strlit("2");
        reveal_strlit("3");
        reveal_strlit("4");
        reveal_strlit("5");
        reveal_strlit("6");
        reveal_strlit("7");
        reveal_strlit("8");
        reveal_strlit("9");
    }
    assert(digit_text@ =~= seq![digit(last as nat)]);
    let mut text: String = if n < 10 {
        String::new()
    } else {
        decimal_text(n / 10)
    };
    text.append(digit_text);
    assert(text@ =~= decimal(n as nat));
    text
}

/// The line that shows keepalive settings: idle time, interval, count and, where the platform
/// has it, the user timeout, with slashes between.
pub open spec fn keepalive_line(
    idle: Seq<char>,
    interval: Seq<char>,
    count: nat,
    user_timeout: Option<Seq<char>>,
) -> Seq<char> {
    let probes = idle + "/"@ + interval + "/"@ + decimal(count);
    match user_timeout {
        Some(timeout) => probes + "/"@ + timeout,
        None => probes,
    }
}

/// Writes the line that shows keepalive settings, given how their spans are shown.
pub fn show_keepalive(
    idle: &str,
    interval: &str,
    count: usize,
    user_timeout: Option<&str>,
) -> (text: String)
    ensures
        text@ == keepalive_line(
            idle@,
            interval@,
            count as nat,
            match user_timeout {
                Some(timeout) => Some(timeout@),
                None => None,
            },
        ),
        user_timeout matches Some(timeout) ==> text@ == idle@ + "/"@ + interval@ + "/"@ + decimal(
            count as nat,
        ) + "/"@ + timeout@,
        user_timeout is None ==> text@ == idle@ + "/"@ + interval@ + "/"@ + decimal(count as nat),
{
    let mut text: String = String::from_str(idle);
    text.append("/");
    text.append(interval);
    text.append("/");
    text.append(decimal_text(count).as_str());
    if let Some(timeout) = user_timeout {
        text.append("/");
        text.append(timeout);
    }
    text
}

impl TcpKeepalive {
    /// Shows the settings on one line, as the platform has them.
    pub fn display(&self, platform: Platform) -> (text: String)
        ensures
            text@ == keepalive_line(
                shown(self.idle),
                shown(self.interval),
                self.count as nat,
                if platform is Linux {
                    Some(shown(self.user_timeout))
                } else {
                    None
                },
            ),
            ({
                let idle = duration_debug(
                    (self.idle@ / 1_000_000_000) as u64,
                    (self.idle@ % 1_000_000_000) as u32,
                );
                let interval = duration_debug(
                    (self.interval@ / 1_000_000_000) as u64,
                    (self.interval@ % 1_000_000_000) as u32,
                );
                let timeout = duration_debug(
                    (self.user_timeout@ / 1_000_000_000) as u64,
                    (self.user_timeout@ % 1_000_000_000) as u32,
                );
                let probes = idle + "/"@ + interval + "/"@ + decimal(self.count as nat);
                text@ == (if platform is Linux {
                    probes + "/"@ + timeout
                } else {
                    probes
                })
            }),
    {
        let idle: String = debug_duration(self.idle.as_secs(), self.idle.subsec_nanos());
        let interval: String = debug_duration(self.interval.as_secs(), self.interval.subsec_nanos());
        if let Platform::Linux = platform {
            let timeout: String = debug_duration(
                self.user_timeout.as_secs(),
                self.user_timeout.subsec_nanos(),
            );
            show_keepalive(idle.as_str(), interval.as_str(), self.count, Some(timeout.as_str()))
        } else {
            show_keepalive(idle.as_str(), interval.as_str(), self.count, None)
        }
    }
}

} // verus!
