//! Connecting to an address, optionally from a given source address and port range.

use vstd::prelude::*;
use crate::addr::SocketAddr;
use crate::error::{
    connect_error_type, wrap_os_connect_error, Context, Error, ErrorType, IoError, OsError, Subject,
};
use crate::ext::{
    ip_bind_addr_no_port, ip_local_port_range, nonlocal_opt, port_range_value, set_bind_nonlocal,
    set_so_mark,
};
use crate::platform::Platform;
use crate::script::{failure, fits, Call, OnFailure, Reply, Script, Step};
use crate::sockopt::{to_c_int, Level, OptName, SetOpt};

verus! {

/// Where the local end of a connection is to be.
#[derive(Clone, Copy, Debug, PartialEq, Eq)]
pub struct BindTo {
    /// The local address.
    pub addr: Option<SocketAddr>,
    /// The range that the local port is to be taken from, as its low and its high bound.
    pub port_range: Option<(u16, u16)>,
    /// Whether to try again without the port range when the address cannot be taken.
    pub fallback: bool,
    /// Whether the address may be one that is not local (Linux and FreeBSD).
    pub bind_nonlocal: bool,
    /// The mark for policy routing (Linux).
    pub so_mark: Option<u32>,
}

impl BindTo {
    /// Any address and any port.
    pub open spec fn anywhere() -> BindTo {
        BindTo {
            addr: None,
            port_range: None,
            fallback: false,
            bind_nonlocal: false,
            so_mark: None,
        }
    }

    /// A fallback is set, and there is a port range to fall back from.
    pub open spec fn falls_back(self) -> bool {
        self.fallback && self.port_range is Some
    }

    /// Whether to try again without the port range when the address cannot be taken.
    pub fn will_fallback(&self) -> (r: bool)
        ensures
            r == self.falls_back(),
            r == (self.fallback && self.port_range is Some),
    {
        self.fallback && self.port_range.is_some()
    }

    /// Sets whether the address may be one that is not local.
    pub fn set_ip_transparent(&mut self, transparent: bool)
        ensures
            *final(self) == (BindTo { bind_nonlocal: transparent, ..*old(self) }),
    {
        self.bind_nonlocal = transparent;
    }

    /// Sets the mark for policy routing.
    pub fn set_so_mark(&mut self, mark: Option<u32>)
        ensures
            *final(self) == (BindTo { so_mark: mark, ..*old(self) }),
    {
        self.so_mark = mark;
    }

    /// What a second attempt binds to: the same address, transparency and mark, as far as the
    /// platform has them, without the port range and without another fallback.
    pub open spec fn without_range(self, platform: Platform) -> BindTo {
        BindTo {
            addr: self.addr,
            port_range: None,
            fallback: false,
            bind_nonlocal: platform.tunable() && self.bind_nonlocal,
            so_mark: if platform is Linux {
                self.so_mark
            } else {
                None
            },
        }
    }

    /// What a second attempt binds to.
    pub fn reset_port_range(&self, platform: Platform) -> (b: BindTo)
        ensures
            b == self.without_range(platform),
            b.addr == self.addr,
            b.port_range is None,
            !b.fallback,
            b.bind_nonlocal <==> self.bind_nonlocal && (platform is Linux || platform is FreeBsd),
            b.so_mark == (if platform is Linux {
                self.so_mark
            } else {
                None
            }),
    {
        let mut new_bind_to = BindTo::default();
        new_bind_to.addr = self.addr;
        if platform.is_tunable() {
            new_bind_to.set_ip_transparent(self.bind_nonlocal);
        }
        if let Platform::Linux = platform {
            new_bind_to.set_so_mark(self.so_mark);
        }
        new_bind_to
    }
}

impl Default for BindTo {
    fn default() -> (b: BindTo)
        ensures
            b == BindTo::anywhere(),
            b.addr is None,
            b.port_range is None,
            !b.fallback,
            !b.bind_nonlocal,
            b.so_mark is None,
    {
        BindTo {
            addr: None,
            port_range: None,
            fallback: false,
            bind_nonlocal: false,
            so_mark: None,
        }
    }
}

/// The step that makes the socket, of the family of the address to connect to.
pub open spec fn open_step(addr: SocketAddr) -> Step {
    Step {
        call: Call::OpenSocket { ipv6: addr is V6 },
        on_failure: OnFailure::Report(ErrorType::SocketError, "failed to create socket"),
    }
}

/// The steps that keep `bind()` from choosing a port: on Linux there is one.
pub open spec fn no_port_steps(platform: Platform) -> Seq<Step> {
    if platform is Linux {
        seq![
            Step {
                call: Call::SetOpt(
                    SetOpt { level: Level::Ip, name: OptName::BindAddressNoPort, value: 1 },
                ),
                on_failure: OnFailure::Report(
                    ErrorType::SocketError,
                    "failed to set socket opts IP_BIND_ADDRESS_NO_PORT",
                ),
            },
        ]
    } else {
        seq![]
    }
}

/// The steps that allow a source address that is not local: one where it is wanted and the
/// platform has it. The family is that of the address to connect to.
pub open spec fn nonlocal_steps(platform: Platform, addr: SocketAddr, b: BindTo) -> Seq<Step> {
    match nonlocal_opt(platform, addr is V6) {
        Some(opt) => if b.bind_nonlocal {
            seq![
                Step {
                    call: Call::SetOpt(opt),
                    on_failure: OnFailure::Report(
                        ErrorType::SocketError,
                        "failed to set socket opts IP_TRANSPARENT/IP_BINDANY",
                    ),
                },
            ]
        } else {
            seq![]
        },
        None => seq![],
    }
}

/// The steps that mark the socket: on Linux one, where there is a mark.
pub open spec fn mark_steps(platform: Platform, b: BindTo) -> Seq<Step> {
    match b.so_mark {
        Some(mark) => if platform is Linux {
            seq![
                Step {
                    call: Call::SetOpt(
                        SetOpt {
                            level: Level::Socket,
                            name: OptName::Mark,
                            value: to_c_int(mark as int),
                        },
                    ),
                    on_failure: OnFailure::Report(
                        ErrorType::SocketError,
                        "failed to set socket opts SO_MARK",
                    ),
                },
            ]
        } else {
            seq![]
        },
        None => seq![],
    }
}

/// The steps that restrict the local port: on Linux one, where there is a range. A system that
/// does not know the option goes without.
pub open spec fn range_steps(platform: Platform, b: BindTo) -> Seq<Step> {
    match b.port_range {
        Some((low, high)) => if platform is Linux {
            seq![
                Step {
                    call: Call::SetOpt(
                        SetOpt {
                            level: Level::Ip,
                            name: OptName::LocalPortRange,
                            value: port_range_value(low, high),
                        },
                    ),
                    on_failure: OnFailure::ReportUnlessUnsupported(
                        ErrorType::SocketError,
                        "failed to set socket opts IP_LOCAL_PORT_RANGE",
                    ),
                },
            ]
        } else {
            seq![]
        },
        None => seq![],
    }
}

/// The step that binds to `local`.
pub open spec fn bind_step(local: SocketAddr) -> Step {
    Step {
        call: Call::Bind(local),
        on_failure: OnFailure::ReportAddr(ErrorType::BindError, "failed to bind to socket ", local),
    }
}

/// The steps that bind: two, where there is an address. The address may be one that a closed
/// connection still holds.
pub open spec fn bind_steps(b: BindTo) -> Seq<Step> {
    match b.addr {
        Some(local) => seq![
            Step {
                call: Call::ReuseAddr(true),
                on_failure: OnFailure::Report(
                    ErrorType::SocketError,
                    "failed to set socket opts SO_REUSEADDR",
                ),
            },
            bind_step(local),
        ],
        None => seq![],
    }
}

/// The step that hands the socket to the user's hook.
pub open spec fn tune_step() -> Step {
    Step { call: Call::Tune, on_failure: OnFailure::Hook }
}

/// The step that connects.
pub open spec fn connect_step(addr: SocketAddr) -> Step {
    Step {
        call: Call::Connect(addr),
        on_failure: OnFailure::Classify("Fail to connect to ", addr),
    }
}

/// Everything that is done to the socket on account of `bind_to`.
pub open spec fn bind_to_steps(
    platform: Platform,
    addr: SocketAddr,
    bind_to: Option<BindTo>,
) -> Seq<Step> {
    match bind_to {
        Some(b) => nonlocal_steps(platform, addr, b) + mark_steps(platform, b) + range_steps(
            platform,
            b,
        ) + bind_steps(b),
        None => seq![],
    }
}

/// The whole of one attempt to connect.
pub open spec fn attempt(platform: Platform, addr: SocketAddr, bind_to: Option<BindTo>) -> Seq<
    Step,
> {
    seq![open_step(addr)] + no_port_steps(platform) + bind_to_steps(platform, addr, bind_to)
        + seq![tune_step(), connect_step(addr)]
}

/// Puts the setting of an option behind the other steps, where there is an option to set.
fn push_opt(steps: &mut Vec<Step>, opt: Option<SetOpt>, on_failure: OnFailure)
    ensures
        final(steps)@ == old(steps)@ + (match opt {
            Some(opt) => seq![Step { call: Call::SetOpt(opt), on_failure }],
            None => seq![],
        }),
{
    if let Some(opt) = opt {
        steps.push(Step { call: Call::SetOpt(opt), on_failure });
    }
    assert(steps@ =~= old(steps)@ + (match opt {
        Some(opt) => seq![Step { call: Call::SetOpt(opt), on_failure }],
        None => seq![],
    }));
}

proof fn lemma_append_four(s: Seq<Step>, a: Seq<Step>, b: Seq<Step>, c: Seq<Step>, d: Seq<Step>)
    ensures
        s + a + b + c + d == s + (a + b + c + d),
{
    assert(s + a + b + c + d =~= s + (a + b + c + d));
}

/// Plans everything that is done to the socket on account of `bind_to`.
#[verifier::spinoff_prover]
#[verifier::rlimit(40)]
fn plan_bind_to(steps: &mut Vec<Step>, platform: Platform, addr: &SocketAddr, bind_to: &BindTo)
    ensures
        final(steps)@ == old(steps)@ + bind_to_steps(platform, *addr, Some(*bind_to)),
{
    let ghost s0 = steps@;
    if bind_to.bind_nonlocal {
        push_opt(
            steps,
            set_bind_nonlocal(platform, addr.is_ipv6()),
            OnFailure::Report(
                ErrorType::SocketError,
                "failed to set socket opts IP_TRANSPARENT/IP_BINDANY",
            ),
        );
    }
    assert(steps@ =~= s0 + nonlocal_steps(platform, *addr, *bind_to));
    let ghost s1 = steps@;
    if let Some(mark) = bind_to.so_mark {
        push_opt(
            steps,
            set_so_mark(platform, mark),
            OnFailure::Report(ErrorType::SocketError, "failed to set socket opts SO_MARK"),
        );
    }
    assert(steps@ =~= s1 + mark_steps(platform, *bind_to));
    let ghost s2 = steps@;
    if let Some((low, high)) = bind_to.port_range {
        push_opt(
            steps,
            ip_local_port_range(platform, low, high),
            OnFailure::ReportUnlessUnsupported(
                ErrorType::SocketError,
                "failed to set socket opts IP_LOCAL_PORT_RANGE",
            ),
        );
    }
    assert(steps@ =~= s2 + range_steps(platform, *bind_to));
    let ghost s3 = steps@;
    if let Some(baddr) = bind_to.addr {
        steps.push(
            Step {
                call: Call::ReuseAddr(true),
                on_failure: OnFailure::Report(
                    ErrorType::SocketError,
                    "failed to set socket opts SO_REUSEADDR",
                ),
            },
        );
        steps.push(
            Step {
                call: Call::Bind(baddr),
                on_failure: OnFailure::ReportAddr(
                    ErrorType::BindError,
                    "failed to bind to socket ",
                    baddr,
                ),
            },
        );
    }
    assert(steps@ =~= s3 + bind_steps(*bind_to));
    proof {
        lemma_append_four(
            s0,
            nonlocal_steps(platform, *addr, *bind_to),
            mark_steps(platform, *bind_to),
            range_steps(platform, *bind_to),
            bind_steps(*bind_to),
        );
    }
}

/// Plans one attempt to connect.
pub fn inner_connect_with(
    platform: Platform,
    addr: &SocketAddr,
    bind_to: Option<&BindTo>,
) -> (script: Script)
    ensures
        script@ == attempt(
            platform,
            *addr,
            match bind_to {
                Some(b) => Some(*b),
                None => None,
            },
        ),
{
    let mut steps: Vec<Step> = Vec::new();
    steps.push(
        Step {
            call: Call::OpenSocket { ipv6: addr.is_ipv6() },
            on_failure: OnFailure::Report(ErrorType::SocketError, "failed to create socket"),
        },
    );
    assert(steps@ =~= seq![open_step(*addr)]);
    push_opt(
        &mut steps,
        ip_bind_addr_no_port(platform, true),
        OnFailure::Report(
            ErrorType::SocketError,
            "failed to set socket opts IP_BIND_ADDRESS_NO_PORT",
        ),
    );
    assert(steps@ =~= seq![open_step(*addr)] + no_port_steps(platform));
    let ghost s1 = steps@;
    if let Some(bind_to) = bind_to {
        plan_bind_to(&mut steps, platform, addr, bind_to);
    }
    assert(steps@ =~= s1 + bind_to_steps(
        platform,
        *addr,
        match bind_to {
            Some(b) => Some(*b),
            None => None,
        },
    ));
    steps.push(Step { call: Call::Tune, on_failure: OnFailure::Hook });
    steps.push(
        Step {
            call: Call::Connect(*addr),
            on_failure: OnFailure::Classify("Fail to connect to ", *addr),
        },
    );
    assert(steps@ =~= attempt(
        platform,
        *addr,
        match bind_to {
            Some(b) => Some(*b),
            None => None,
        },
    ));
    Script::new(steps)
}

/// How a connection that is being made goes on.
#[derive(Debug, PartialEq, Eq)]
pub enum Progress {
    /// This call is to be performed next.
    Perform(Call),
    /// The connection is made.
    Connected,
    /// The connection could not be made.
    Failed(Error),
}

/// A connection that is being made, seen as what is left of it.
pub struct ConnectState {
    pub platform: Platform,
    pub addr: SocketAddr,
    /// What a second attempt would bind to, as long as one is left.
    pub retry: Option<BindTo>,
    /// The steps that are left of the current attempt.
    pub steps: Seq<Step>,
}

impl ConnectState {
    /// The state before anything has been done.
    pub open spec fn start(platform: Platform, addr: SocketAddr, bind_to: Option<BindTo>) -> Self {
        ConnectState {
            platform,
            addr,
            retry: match bind_to {
                Some(b) => if b.falls_back() {
                    Some(b.without_range(platform))
                } else {
                    None
                },
                None => None,
            },
            steps: attempt(platform, addr, bind_to),
        }
    }

    /// Whether `e` is answered by a second attempt.
    pub open spec fn retries(self, e: Error) -> bool {
        self.retry is Some && e.etype is BindError
    }

    /// The state after a reply.
    pub open spec fn next(self, reply: Reply) -> Self {
        match failure(self.steps[0].on_failure, reply) {
            None => ConnectState { steps: self.steps.drop_first(), ..self },
            Some(e) => if self.retries(e) {
                ConnectState {
                    retry: None,
                    steps: attempt(self.platform, self.addr, self.retry),
                    ..self
                }
            } else {
                self
            },
        }
    }

    /// How it goes on after a reply.
    pub open spec fn progress(self, reply: Reply) -> Progress {
        match failure(self.steps[0].on_failure, reply) {
            Some(e) if !self.retries(e) => Progress::Failed(e),
            _ => if self.next(reply).steps.len() == 0 {
                Progress::Connected
            } else {
                Progress::Perform(self.next(reply).steps[0].call)
            },
        }
    }

    /// What it comes to under a sequence of replies, if they suffice.
    pub open spec fn outcome(self, replies: Seq<Reply>) -> Option<Result<(), Error>>
        decreases replies.len(),
    {
        if self.steps.len() == 0 {
            Some(Ok(()))
        } else if replies.len() == 0 {
            None
        } else {
            match self.progress(replies[0]) {
                Progress::Failed(e) => Some(Err(e)),
                _ => self.next(replies[0]).outcome(replies.drop_first()),
            }
        }
    }
}

/// A connection that is being made.
pub struct Connecting {
    platform: Platform,
    addr: SocketAddr,
    retry: Option<BindTo>,
    script: Script,
}

impl View for Connecting {
    type V = ConnectState;

    closed spec fn view(&self) -> ConnectState {
        ConnectState {
            platform: self.platform,
            addr: self.addr,
            retry: self.retry,
            steps: self.script@,
        }
    }
}

impl Connecting {
    /// The call that is to be performed next; `None` says that the connection is made.
    pub fn next(&self) -> (r: Option<Call>)
        ensures
            r == (if self@.steps.len() == 0 {
                None
            } else {
                Some(self@.steps[0].call)
            }),
    {
        self.script.next()
    }

    /// Takes the reply to the call that was to be performed.
    pub fn feed(&mut self, reply: Reply) -> (r: Progress)
        requires
            old(self)@.steps.len() > 0,
            fits(old(self)@.steps[0].on_failure, reply),
        ensures
            r == old(self)@.progress(reply),
            final(self)@ == old(self)@.next(reply),
    {
        match self.script.feed(reply) {
            Ok(()) => {},
            Err(e) => {
                let retry: Option<BindTo> = self.retry;
                match (retry, e.etype) {
                    // the address cannot be taken: clear the port range and try again
                    (Some(new_bind_to), ErrorType::BindError) => {
                        self.retry = None;
                        self.script =
                        inner_connect_with(self.platform, &self.addr, Some(&new_bind_to));
                    },
                    _ => {
                        return Progress::Failed(e);
                    },
                }
            },
        }
        match self.script.next() {
            Some(call) => Progress::Perform(call),
            None => Progress::Connected,
        }
    }
}

/// Plans to connect to the given address while optionally binding to the specific source address
/// and port range.
///
/// The call [`Call::Tune`] can be used to tune the socket before `connect()` is called.
///
/// If a [`BindTo`] is set with a port range and fallback setting enabled, the plan tries again
/// when the address cannot be taken, ignoring the port range.
///
/// `IP_BIND_ADDRESS_NO_PORT` is used.
/// `IP_LOCAL_PORT_RANGE` is used if a port range is set on [`BindTo`].
pub fn connect_with(
    platform: Platform,
    addr: &SocketAddr,
    bind_to: Option<&BindTo>,
) -> (c: Connecting)
    ensures
        c@ == ConnectState::start(
            platform,
            *addr,
            match bind_to {
                Some(b) => Some(*b),
                None => None,
            },
        ),
        c@.retry is Some <==> bind_to is Some && bind_to->0.fallback
            && bind_to->0.port_range is Some,
{
    let retry: Option<BindTo> = match bind_to {
        Some(b) => if b.will_fallback() {
            Some(b.reset_port_range(platform))
        } else {
            None
        },
        None => None,
    };
    Connecting {
        platform,
        addr: *addr,
        retry,
        script: inner_connect_with(platform, addr, bind_to),
    }
}

/// Plans to connect to the given address while optionally binding to the specific source
/// address, with a hook that does nothing.
///
/// `IP_BIND_ADDRESS_NO_PORT` is used.
/// `IP_LOCAL_PORT_RANGE` is used if a port range is set on [`BindTo`].
pub fn connect(platform: Platform, addr: &SocketAddr, bind_to: Option<&BindTo>) -> (c: Connecting)
    ensures
        c@ == ConnectState::start(
            platform,
            *addr,
            match bind_to {
                Some(b) => Some(*b),
                None => None,
            },
        ),
        c@.retry is Some <==> bind_to is Some && bind_to->0.fallback
            && bind_to->0.port_range is Some,
{
    connect_with(platform, addr, bind_to)
}

/// Takes the result of connecting to a Unix domain socket. `path` is the path as it is shown.
pub fn connect_uds(path: String, result: Result<(), OsError>) -> (r: Result<(), Error>)
    ensures
        r == (match result {
            Ok(()) => Ok::<(), Error>(()),
            Err(e) => Err(
                Error {
                    etype: connect_error_type(e),
                    context: Context {
                        text: "Fail to connect to ",
                        subject: Subject::Path(path),
                    },
                    cause: Some(IoError::Os(e)),
                },
            ),
        }),
{
    match result {
        Ok(()) => Ok(()),
        Err(e) => Err(
            wrap_os_connect_error(
                e,
                Context { text: "Fail to connect to ", subject: Subject::Path(path) },
            ),
        ),
    }
}

} // verus!
