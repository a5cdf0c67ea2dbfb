//! What holds of the library as a whole.

use vstd::prelude::*;
use crate::addr::SocketAddr;
use crate::bytes::{number, u16_at, ByteOrder};
use crate::connect::{
    attempt, bind_step, bind_steps, bind_to_steps, connect_step, mark_steps, no_port_steps, nonlocal_steps,
    open_step, range_steps, tune_step, BindTo, ConnectState, Progress,
};
use crate::error::{connect_error_type, Errno, Error, IoError, OsError, Subject};
use crate::ext::{nonlocal_opt, port_range_value};
use crate::keepalive::{keepalive_opts, TcpKeepalive};
use crate::platform::Platform;
use crate::script::{failure, fits, law_run_fails, law_run_succeeds, run, Call, Reply, Step};
use crate::sockopt::{c_int_at, law_c_int_round_trip, to_c_int, to_usize, Level, OptName, SetOpt, C_INT_LEN};

verus! {

/// A script takes no more replies than there are, and no more than it has steps.
proof fn lemma_run_takes(steps: Seq<Step>, replies: Seq<Reply>)
    ensures
        run(steps, replies) matches Some((_, n)) ==> n <= replies.len() && n <= steps.len(),
        replies.len() >= steps.len() ==> run(steps, replies) is Some,
    decreases steps.len(),
{
    if steps.len() > 0 && replies.len() > 0 {
        lemma_run_takes(steps.drop_first(), replies.drop_first());
    }
}

/// A connection with no second attempt left comes to what its steps come to.
proof fn lemma_last_attempt(state: ConnectState, replies: Seq<Reply>)
    requires
        state.retry is None,
    ensures
        state.outcome(replies) == (match run(state.steps, replies) {
            Some((r, _)) => Some(r),
            None => None,
        }),
    decreases replies.len(),
{
    if state.steps.len() > 0 && replies.len() > 0 {
        if failure(state.steps[0].on_failure, replies[0]) is None {
            lemma_last_attempt(state.next(replies[0]), replies.drop_first());
        }
    }
}

/// A connection with a second attempt left comes to what its steps come to, unless that is a
/// failure to take the address; then it comes to what the second attempt comes to.
proof fn lemma_first_attempt(state: ConnectState, replies: Seq<Reply>)
    requires
        state.retry is Some,
    ensures
        state.outcome(replies) == (match run(state.steps, replies) {
            Some((Err(e), n)) => if e.etype is BindError {
                match run(
                    attempt(state.platform, state.addr, state.retry),
                    replies.skip(n as int),
                ) {
                    Some((r, _)) => Some(r),
                    None => None,
                }
            } else {
                Some(Err(e))
            },
            Some((r, _)) => Some(r),
            None => None,
        }),
    decreases replies.len(),
{
    if state.steps.len() > 0 && replies.len() > 0 {
        let rest = replies.drop_first();
        match failure(state.steps[0].on_failure, replies[0]) {
            None => {
                lemma_first_attempt(state.next(replies[0]), rest);
                lemma_run_takes(state.steps.drop_first(), rest);
                match run(state.steps.drop_first(), rest) {
                    Some((_, n)) => {
                        assert(rest.skip(n as int) =~= replies.skip((n + 1) as int));
                    },
                    None => {},
                }
            },
            Some(e) => {
                assert(replies.skip(1) =~= rest);
                if e.etype is BindError {
                    lemma_last_attempt(state.next(replies[0]), rest);
                }
            },
        }
    }
}

/// Connecting is one attempt or two. Where a fallback is set and there is a port range, an
/// attempt that ends because the address cannot be taken is followed by a second one, without
/// the range, and that one decides. In every other case the first attempt decides.
pub proof fn law_connect_is_one_or_two_attempts(
    platform: Platform,
    addr: SocketAddr,
    bind_to: Option<BindTo>,
    replies: Seq<Reply>,
)
    ensures
        ConnectState::start(platform, addr, bind_to).outcome(replies) == (match run(
            attempt(platform, addr, bind_to),
            replies,
        ) {
            Some((Err(e), n)) => if bind_to is Some && bind_to->0.falls_back()
                && e.etype is BindError {
                match run(
                    attempt(platform, addr, Some(bind_to->0.without_range(platform))),
                    replies.skip(n as int),
                ) {
                    Some((r, _)) => Some(r),
                    None => None,
                }
            } else {
                Some(Err(e))
            },
            Some((r, _)) => Some(r),
            None => None,
        }),
{
    let state = ConnectState::start(platform, addr, bind_to);
    if state.retry is Some {
        lemma_first_attempt(state, replies);
    } else {
        lemma_last_attempt(state, replies);
    }
}

/// Connecting ends: it never takes more replies than two attempts have steps, and no attempt has
/// more than nine.
pub proof fn law_connect_ends(
    platform: Platform,
    addr: SocketAddr,
    bind_to: Option<BindTo>,
    replies: Seq<Reply>,
)
    requires
        replies.len() >= 18,
    ensures
        attempt(platform, addr, bind_to).len() <= 9,
        ConnectState::start(platform, addr, bind_to).outcome(replies) is Some,
{
    law_connect_is_one_or_two_attempts(platform, addr, bind_to, replies);
    let first = attempt(platform, addr, bind_to);
    lemma_run_takes(first, replies);
    if bind_to is Some {
        let n = (run(first, replies)->0).1;
        lemma_run_takes(
            attempt(platform, addr, Some(bind_to->0.without_range(platform))),
            replies.skip(n as int),
        );
    }
}

/// Where every call succeeds, the connection is made at the first attempt.
pub proof fn law_connect_succeeds(
    platform: Platform,
    addr: SocketAddr,
    bind_to: Option<BindTo>,
    replies: Seq<Reply>,
)
    requires
        replies.len() >= attempt(platform, addr, bind_to).len(),
        forall|i: int| 0 <= i < attempt(platform, addr, bind_to).len() ==> replies[i] is Done,
    ensures
        ConnectState::start(platform, addr, bind_to).outcome(replies) == Some(Ok::<(), Error>(())),
{
    law_connect_is_one_or_two_attempts(platform, addr, bind_to, replies);
    let steps = attempt(platform, addr, bind_to);
    law_run_succeeds(steps, replies);
}

/// The first call that fails ends the connection with its error, unless that is a failure to
/// take the address and there is a range to fall back from.
pub proof fn law_connect_fails(
    platform: Platform,
    addr: SocketAddr,
    bind_to: Option<BindTo>,
    replies: Seq<Reply>,
    i: int,
)
    requires
        0 <= i < attempt(platform, addr, bind_to).len(),
        i < replies.len(),
        forall|j: int|
            0 <= j < i ==> failure(
                (#[trigger] attempt(platform, addr, bind_to)[j]).on_failure,
                replies[j],
            ) is None,
        failure(attempt(platform, addr, bind_to)[i].on_failure, replies[i]) matches Some(e) && !(
        bind_to is Some && bind_to->0.falls_back() && e.etype is BindError),
    ensures
        ConnectState::start(platform, addr, bind_to).outcome(replies) == Some(
            Err::<(), Error>(
                failure(attempt(platform, addr, bind_to)[i].on_failure, replies[i])->0,
            ),
        ),
{
    law_connect_is_one_or_two_attempts(platform, addr, bind_to, replies);
    law_run_fails(attempt(platform, addr, bind_to), replies, i);
}

/// Falling back is connecting anew without the port range: where the address cannot be taken and
/// there is a range to fall back from, the replies that follow decide, as they would have
/// decided for a connection that had no range from the start.
pub proof fn law_fallback_connects_anew(
    platform: Platform,
    addr: SocketAddr,
    b: BindTo,
    replies: Seq<Reply>,
    i: int,
)
    requires
        b.falls_back(),
        0 <= i < attempt(platform, addr, Some(b)).len(),
        i < replies.len(),
        forall|j: int|
            0 <= j < i ==> failure(
                (#[trigger] attempt(platform, addr, Some(b))[j]).on_failure,
                replies[j],
            ) is None,
        failure(attempt(platform, addr, Some(b))[i].on_failure, replies[i]) matches Some(e)
            && e.etype is BindError,
    ensures
        ConnectState::start(platform, addr, Some(b)).outcome(replies) == ConnectState::start(
            platform,
            addr,
            Some(b.without_range(platform)),
        ).outcome(replies.skip(i + 1)),
{
    let r = Some(b.without_range(platform));
    law_connect_is_one_or_two_attempts(platform, addr, Some(b), replies);
    law_run_fails(attempt(platform, addr, Some(b)), replies, i);
    law_connect_is_one_or_two_attempts(platform, addr, r, replies.skip(i + 1));
}

/// The second attempt is the first one without the steps on account of the port range: the
/// socket is made anew, and the address, the transparency and the mark are kept.
pub proof fn law_second_attempt_drops_only_the_range(
    platform: Platform,
    addr: SocketAddr,
    b: BindTo,
)
    ensures
        ({
            let before = seq![open_step(addr)] + no_port_steps(platform) + nonlocal_steps(
                platform,
                addr,
                b,
            ) + mark_steps(platform, b);
            let after = bind_steps(b) + seq![tune_step(), connect_step(addr)];
            &&& attempt(platform, addr, Some(b)) == before + range_steps(platform, b) + after
            &&& attempt(platform, addr, Some(b.without_range(platform))) == before + after
        }),
{
    let before = seq![open_step(addr)] + no_port_steps(platform) + nonlocal_steps(
        platform,
        addr,
        b,
    ) + mark_steps(platform, b);
    let after = bind_steps(b) + seq![tune_step(), connect_step(addr)];
    let r = b.without_range(platform);
    assert(attempt(platform, addr, Some(b)) =~= before + range_steps(platform, b) + after);
    assert(nonlocal_steps(platform, addr, r) == nonlocal_steps(platform, addr, b));
    assert(mark_steps(platform, r) == mark_steps(platform, b));
    assert(range_steps(platform, r) == Seq::<Step>::empty());
    assert(bind_steps(r) == bind_steps(b));
    assert(attempt(platform, addr, Some(r)) =~= before + after);
}

/// A step restricts the local port.
pub open spec fn sets_port_range(step: Step) -> bool {
    step.call matches Call::SetOpt(opt) && opt.name is LocalPortRange
}

/// The second attempt ignores the port range.
pub proof fn law_second_attempt_ignores_the_range(platform: Platform, addr: SocketAddr, b: BindTo)
    ensures
        forall|i: int|
            0 <= i < attempt(platform, addr, Some(b.without_range(platform))).len()
                ==> !sets_port_range(
                #[trigger] attempt(platform, addr, Some(b.without_range(platform)))[i],
            ),
{
    let r = b.without_range(platform);
    let head = seq![open_step(addr)] + no_port_steps(platform);
    let body = bind_to_steps(platform, addr, Some(r));
    let s1 = nonlocal_steps(platform, addr, r);
    let s2 = mark_steps(platform, r);
    assert(range_steps(platform, r) == Seq::<Step>::empty());
    assert(forall|i: int| 0 <= i < head.len() ==> !sets_port_range(#[trigger] head[i]));
    assert(forall|i: int| 0 <= i < s1.len() ==> !sets_port_range(#[trigger] s1[i]));
    assert(forall|i: int| 0 <= i < s2.len() ==> !sets_port_range(#[trigger] s2[i]));
    assert(forall|i: int| 0 <= i < body.len() ==> !sets_port_range(#[trigger] body[i]));
}

/// A local address that is not available is answered by the second attempt, as long as one is
/// left, whether `bind()` or `connect()` finds it out.
pub proof fn law_addr_not_available_is_retried(state: ConnectState, e: OsError)
    requires
        state.retry is Some,
        state.steps.len() > 0,
        ({
            ||| exists|local: SocketAddr| state.steps[0] == #[trigger] bind_step(local)
            ||| exists|remote: SocketAddr| state.steps[0] == #[trigger] connect_step(remote)
        }),
        e.kind is AddrNotAvailable,
    ensures
        state.progress(Reply::Os(e)) == Progress::Perform(
            Call::OpenSocket { ipv6: state.addr is V6 },
        ),
        state.next(Reply::Os(e)) == (ConnectState {
            retry: None,
            steps: attempt(state.platform, state.addr, state.retry),
            ..state
        }),
{
    assert(attempt(state.platform, state.addr, state.retry)[0] == open_step(state.addr));
}

/// Where each step of an attempt stands.
proof fn lemma_shape(platform: Platform, addr: SocketAddr, bind_to: Option<BindTo>)
    ensures
        ({
            let steps = attempt(platform, addr, bind_to);
            let b = bind_to->0;
            let some = bind_to is Some;
            let n1: int = if platform is Linux {
                1
            } else {
                0
            };
            let n2: int = if some && b.bind_nonlocal && (platform is Linux || platform is FreeBsd) {
                n1 + 1
            } else {
                n1
            };
            let n3: int = if some && b.so_mark is Some && platform is Linux {
                n2 + 1
            } else {
                n2
            };
            let n4: int = if some && b.port_range is Some && platform is Linux {
                n3 + 1
            } else {
                n3
            };
            let n5: int = if some && b.addr is Some {
                n4 + 2
            } else {
                n4
            };
            &&& steps.len() == n5 + 3
            &&& steps[0] == open_step(addr)
            &&& n1 > 0 ==> steps[1] == no_port_steps(platform)[0]
            &&& n2 > n1 ==> steps[n2] == nonlocal_steps(platform, addr, b)[0]
            &&& n3 > n2 ==> steps[n3] == mark_steps(platform, b)[0]
            &&& n4 > n3 ==> steps[n4] == range_steps(platform, b)[0]
            &&& n5 > n4 ==> steps[n4 + 1] == bind_steps(b)[0] && steps[n5] == bind_steps(b)[1]
            &&& steps[n5 + 1] == tune_step()
            &&& steps[n5 + 2] == connect_step(addr)
        }),
{
    let b = bind_to->0;
    let s1 = no_port_steps(platform);
    let s2 = nonlocal_steps(platform, addr, b);
    let s3 = mark_steps(platform, b);
    let s4 = range_steps(platform, b);
    let s5 = bind_steps(b);
    let tail = seq![tune_step(), connect_step(addr)];
    if bind_to is Some {
        assert(attempt(platform, addr, bind_to) =~= seq![open_step(addr)] + s1 + s2 + s3 + s4 + s5
            + tail);
    } else {
        assert(attempt(platform, addr, bind_to) =~= seq![open_step(addr)] + s1 + tail);
    }
}

/// Which calls an attempt makes: it opens a socket of the remote address's family, and connects
/// to the remote address, after the hook. On Linux it keeps `bind()` from choosing a port. If a
/// local end is asked for, it allows a local address that is not local, where that is wanted and
/// the platform can; on Linux it sets the mark and the port range, where there are any; and where
/// there is a local address it binds to exactly that address, which it may reuse. It makes no
/// other call.
pub proof fn law_which_calls_an_attempt_makes(
    platform: Platform,
    addr: SocketAddr,
    bind_to: Option<BindTo>,
    call: Call,
)
    ensures
        (exists|i: int|
            0 <= i < attempt(platform, addr, bind_to).len() && (#[trigger] attempt(
                platform,
                addr,
                bind_to,
            )[i]).call == call) <==> ({
            let b = bind_to->0;
            ||| call == (Call::OpenSocket { ipv6: addr is V6 })
            ||| platform is Linux && call == Call::SetOpt(
                SetOpt { level: Level::Ip, name: OptName::BindAddressNoPort, value: 1 },
            )
            ||| bind_to is Some && b.bind_nonlocal && platform is Linux && addr is V4 && call
                == Call::SetOpt(SetOpt { level: Level::Ip, name: OptName::Transparent, value: 1 })
            ||| bind_to is Some && b.bind_nonlocal && platform is Linux && addr is V6 && call
                == Call::SetOpt(
                SetOpt { level: Level::Ipv6, name: OptName::Ipv6Transparent, value: 1 },
            )
            ||| bind_to is Some && b.bind_nonlocal && platform is FreeBsd && addr is V4 && call
                == Call::SetOpt(SetOpt { level: Level::Ip, name: OptName::BindAny, value: 1 })
            ||| bind_to is Some && b.bind_nonlocal && platform is FreeBsd && addr is V6 && call
                == Call::SetOpt(SetOpt { level: Level::Ipv6, name: OptName::Ipv6BindAny, value: 1 })
            ||| bind_to is Some && b.so_mark is Some && platform is Linux && call is SetOpt
                && call->SetOpt_0.level is Socket && call->SetOpt_0.name is Mark && (b.so_mark->0
                - call->SetOpt_0.value) % 0x1_0000_0000 == 0
            ||| bind_to is Some && b.port_range is Some && platform is Linux && call is SetOpt
                && call->SetOpt_0.level is Ip && call->SetOpt_0.name is LocalPortRange && ((
            b.port_range->0).0 + 65536 * (b.port_range->0).1 - call->SetOpt_0.value)
                % 0x1_0000_0000 == 0
            ||| bind_to is Some && b.addr is Some && call == Call::ReuseAddr(true)
            ||| bind_to is Some && b.addr is Some && call == Call::Bind(b.addr->0)
            ||| call is Tune
            ||| call == Call::Connect(addr)
        }),
{
    lemma_shape(platform, addr, bind_to);
}

/// In which order: the socket is opened, `bind()` is kept from choosing a port, a local address
/// that is not local is allowed, the mark and the port range are set, the local address may be
/// reused and is bound, the hook has the socket, and the connection is made. No call is made
/// twice in an attempt.
pub proof fn law_in_which_order_an_attempt_goes(
    platform: Platform,
    addr: SocketAddr,
    bind_to: Option<BindTo>,
)
    ensures
        ({
            let steps = attempt(platform, addr, bind_to);
            let rank = (|call: Call|
                if call is OpenSocket {
                    0int
                } else if call is SetOpt && call->SetOpt_0.name is BindAddressNoPort {
                    1
                } else if call is SetOpt && call->SetOpt_0.name is Mark {
                    3
                } else if call is SetOpt && call->SetOpt_0.name is LocalPortRange {
                    4
                } else if call is SetOpt {
                    2
                } else if call is ReuseAddr {
                    5
                } else if call is Bind {
                    6
                } else if call is Tune {
                    7
                } else {
                    8
                });
            forall|i: int, j: int|
                0 <= i < j < steps.len() ==> rank((#[trigger] steps[i]).call) < rank(
                    (#[trigger] steps[j]).call,
                )
        }),
{
    lemma_shape(platform, addr, bind_to);
}

/// What it means when a call of an attempt fails: the error names what was being done, the
/// address where there is one, and the failure as its cause. Failing to bind is a `BindError`,
/// failing to connect has the type that fits the failure, and everything else is a `SocketError`
/// except that a system may not know port ranges. The hook fails with its own error.
pub proof fn law_what_failing_calls_mean(
    platform: Platform,
    addr: SocketAddr,
    bind_to: Option<BindTo>,
    i: int,
    e: OsError,
    own: Error,
)
    requires
        0 <= i < attempt(platform, addr, bind_to).len(),
    ensures
        ({
            let call = attempt(platform, addr, bind_to)[i].call;
            let on_failure = attempt(platform, addr, bind_to)[i].on_failure;
            let r = failure(on_failure, Reply::Os(e));
            &&& failure(on_failure, Reply::Done) is None
            &&& call is Tune ==> fits(on_failure, Reply::Hook(own)) && failure(
                on_failure,
                Reply::Hook(own),
            ) == Some(own)
            &&& !(call is Tune) ==> fits(on_failure, Reply::Os(e))
            &&& !(call is Tune) ==> (r is None <==> call is SetOpt
                && call->SetOpt_0.name is LocalPortRange && e.errno == Some(Errno::NoProtoOpt))
            &&& !(call is Tune) && r is Some ==> {
                let error = r->0;
                &&& error.cause == Some(IoError::Os(e))
                &&& call is Bind ==> error.etype is BindError && error.context.text
                    == "failed to bind to socket " && error.context.subject == Subject::Addr(
                    call->Bind_0,
                )
                &&& call is Connect ==> error.etype == connect_error_type(e) && error.context.text
                    == "Fail to connect to " && error.context.subject == Subject::Addr(addr)
                &&& !(call is Bind) && !(call is Connect) ==> error.etype is SocketError
                    && error.context.subject == Subject::Nothing
                &&& call is OpenSocket ==> error.context.text == "failed to create socket"
                &&& call is ReuseAddr ==> error.context.text
                    == "failed to set socket opts SO_REUSEADDR"
                &&& call is SetOpt && call->SetOpt_0.name is BindAddressNoPort
                    ==> error.context.text == "failed to set socket opts IP_BIND_ADDRESS_NO_PORT"
                &&& call is SetOpt && call->SetOpt_0.name is Mark ==> error.context.text
                    == "failed to set socket opts SO_MARK"
                &&& call is SetOpt && call->SetOpt_0.name is LocalPortRange ==> error.context.text
                    == "failed to set socket opts IP_LOCAL_PORT_RANGE"
                &&& call is SetOpt && (call->SetOpt_0.name is Transparent
                    || call->SetOpt_0.name is Ipv6Transparent || call->SetOpt_0.name is BindAny
                    || call->SetOpt_0.name is Ipv6BindAny) ==> error.context.text
                    == "failed to set socket opts IP_TRANSPARENT/IP_BINDANY"
            }
        }),
{
    lemma_shape(platform, addr, bind_to);
}

/// The one call that binds is to the local address as it was given: address, port, flow
/// information and scope.
pub proof fn law_binds_to_the_exact_address(
    platform: Platform,
    addr: SocketAddr,
    b: BindTo,
    local: SocketAddr,
)
    requires
        b.addr == Some(local),
    ensures
        ({
            let steps = attempt(platform, addr, Some(b));
            &&& exists|j: int|
                0 <= j < steps.len() && (#[trigger] steps[j]).call == Call::Bind(local)
            &&& forall|j: int|
                0 <= j < steps.len() && (#[trigger] steps[j]).call is Bind ==> steps[j].call
                    == Call::Bind(local)
            &&& forall|i: int, j: int|
                0 <= i < steps.len() && 0 <= j < steps.len() && (#[trigger] steps[i]).call is Bind
                    && (#[trigger] steps[j]).call is Bind ==> i == j
        }),
{
    lemma_shape(platform, addr, Some(b));
}

/// The first attempt is made with everything that was asked for. A second is left exactly if a fallback is set and there is a port range to fall back
/// from, whatever else is asked for; it keeps the address, and the transparency and the mark as
/// far as the platform has them, and has neither a range nor a fallback of its own.
pub proof fn law_when_a_second_attempt_is_left(
    platform: Platform,
    addr: SocketAddr,
    bind_to: Option<BindTo>,
)
    ensures
        ({
            let state = ConnectState::start(platform, addr, bind_to);
            &&& state.platform == platform
            &&& state.addr == addr
            &&& state.steps == attempt(platform, addr, bind_to)
            &&& state.retry is Some <==> bind_to is Some && bind_to->0.fallback
                && bind_to->0.port_range is Some
            &&& state.retry is Some ==> {
                let b = bind_to->0;
                let second = state.retry->0;
                &&& second.addr == b.addr
                &&& second.port_range is None
                &&& !second.fallback
                &&& second.bind_nonlocal <==> b.bind_nonlocal && (platform is Linux
                    || platform is FreeBsd)
                &&& platform is Linux ==> second.so_mark == b.so_mark
                &&& !(platform is Linux) ==> second.so_mark is None
            }
        }),
{
}

/// What a reply does: one that is no failure moves on to the next call, and the connection is
/// made when none is left. A failure to take the address starts the second attempt, if one is
/// left, from its first call, and leaves no other. Any other failure ends it there, with its
/// error.
pub proof fn law_what_a_reply_does(state: ConnectState, reply: Reply)
    requires
        state.steps.len() > 0,
    ensures
        ({
            let after = state.next(reply);
            let failed = failure(state.steps[0].on_failure, reply);
            &&& after.platform == state.platform
            &&& after.addr == state.addr
            &&& failed is None ==> {
                &&& after.retry == state.retry
                &&& after.steps == state.steps.skip(1)
                &&& state.steps.len() == 1 ==> state.progress(reply) is Connected
                &&& state.steps.len() > 1 ==> state.progress(reply) == Progress::Perform(
                    state.steps[1].call,
                )
            }
            &&& failed is Some && state.retry is Some && failed->0.etype is BindError ==> {
                &&& after.retry is None
                &&& after.steps == attempt(state.platform, state.addr, state.retry)
                &&& state.progress(reply) == Progress::Perform(
                    Call::OpenSocket { ipv6: state.addr is V6 },
                )
            }
            &&& failed is Some && !(state.retry is Some && failed->0.etype is BindError) ==> {
                &&& after == state
                &&& state.progress(reply) == Progress::Failed(failed->0)
            }
        }),
{
    lemma_shape(state.platform, state.addr, state.retry);
    assert(state.steps.drop_first() =~= state.steps.skip(1));
}

/// Whatever else is asked for, an attempt makes its socket first, connects last, and hands the
/// socket to the user's hook right before that: the hook finds the socket bound.
pub proof fn law_order_of_an_attempt(platform: Platform, addr: SocketAddr, bind_to: Option<BindTo>)
    ensures
        ({
            let steps = attempt(platform, addr, bind_to);
            let n = steps.len();
            &&& n >= 3
            &&& forall|i: int|
                0 <= i < n ==> (((#[trigger] steps[i]).call is OpenSocket <==> i == 0) && (
                steps[i].call is Connect <==> i == n - 1) && (steps[i].call is Tune <==> i == n
                    - 2) && (steps[i].call is Bind ==> i < n - 2))
            &&& steps[0] == open_step(addr)
            &&& steps[n - 1] == connect_step(addr)
        }),
{
    let steps = attempt(platform, addr, bind_to);
    let head = seq![open_step(addr)] + no_port_steps(platform);
    let body = bind_to_steps(platform, addr, bind_to);
    assert forall|i: int| 0 <= i < body.len() implies !((#[trigger] body[i]).call is OpenSocket)
        && !(body[i].call is Connect) && !(body[i].call is Tune) by {
        let b = bind_to->0;
        let s1 = nonlocal_steps(platform, addr, b);
        let s2 = mark_steps(platform, b);
        let s3 = range_steps(platform, b);
        let s4 = bind_steps(b);
        assert(body == s1 + s2 + s3 + s4);
    }
    assert forall|i: int| 0 <= i < steps.len() implies ((#[trigger] steps[i]).call is OpenSocket
        <==> i == 0) && (steps[i].call is Connect <==> i == steps.len() - 1) && (
    steps[i].call is Tune <==> i == steps.len() - 2) && (steps[i].call is Bind ==> i < steps.len()
        - 2) by {
        if i < head.len() {
            assert(steps[i] == head[i]);
        } else if i < head.len() + body.len() {
            assert(steps[i] == body[i - head.len()]);
        }
    }
}

/// An attempt binds exactly where a local address is given, to that address, and lets it be
/// reused right before; and a local address that need not be local is allowed before that.
pub proof fn law_bind_is_prepared(platform: Platform, addr: SocketAddr, b: BindTo)
    ensures
        ({
            let steps = attempt(platform, addr, Some(b));
            &&& b.addr is Some <==> exists|j: int|
                0 <= j < steps.len() && (#[trigger] steps[j]).call is Bind
            &&& forall|j: int|
                0 <= j < steps.len() && (#[trigger] steps[j]).call is Bind ==> {
                    &&& steps[j] == bind_step(b.addr->0)
                    &&& j > 0
                    &&& steps[j - 1].call == Call::ReuseAddr(true)
                    &&& b.bind_nonlocal && platform.tunable() ==> exists|i: int|
                        0 <= i < j && (#[trigger] steps[i]).call == Call::SetOpt(
                            nonlocal_opt(platform, addr is V6)->0,
                        )
                }
        }),
{
    let steps = attempt(platform, addr, Some(b));
    let head = seq![open_step(addr)] + no_port_steps(platform);
    let s1 = nonlocal_steps(platform, addr, b);
    let s2 = mark_steps(platform, b);
    let s3 = range_steps(platform, b);
    let s4 = bind_steps(b);
    let tail = seq![tune_step(), connect_step(addr)];
    let k = (head.len() + s1.len() + s2.len() + s3.len()) as int;
    assert(steps =~= head + s1 + s2 + s3 + s4 + tail);
    assert(forall|i: int| 0 <= i < head.len() ==> !((#[trigger] head[i]).call is Bind));
    assert(forall|i: int| 0 <= i < s1.len() ==> !((#[trigger] s1[i]).call is Bind));
    assert(forall|i: int| 0 <= i < s2.len() ==> !((#[trigger] s2[i]).call is Bind));
    assert(forall|i: int| 0 <= i < s3.len() ==> !((#[trigger] s3[i]).call is Bind));
    assert forall|j: int| 0 <= j < steps.len() && (#[trigger] steps[j]).call is Bind implies s4.len()
        > 0 && j == k + 1 by {
        let h = head.len() as int;
        if j < h {
            assert(steps[j] == head[j]);
        } else if j < h + s1.len() {
            assert(steps[j] == s1[j - h]);
        } else if j < h + s1.len() + s2.len() {
            assert(steps[j] == s2[j - h - s1.len()]);
        } else if j < k {
            assert(steps[j] == s3[j - h - s1.len() - s2.len()]);
        } else if j < k + s4.len() {
            assert(steps[j] == s4[j - k]);
        } else {
            assert(steps[j] == tail[j - k - s4.len()]);
        }
    }
    if b.addr is Some {
        assert(steps[k] == s4[0]);
        assert(steps[k + 1] == s4[1]);
    }
    if b.bind_nonlocal && platform.tunable() {
        assert(steps[head.len() as int] == s1[0]);
    }
}

/// On Linux every attempt keeps `bind()` from choosing a port, right after making the socket;
/// and it restricts the local port exactly where a range is given.
pub proof fn law_linux_port_options(addr: SocketAddr, bind_to: Option<BindTo>)
    ensures
        ({
            let steps = attempt(Platform::Linux, addr, bind_to);
            &&& steps[1].call == Call::SetOpt(
                SetOpt { level: Level::Ip, name: OptName::BindAddressNoPort, value: 1 },
            )
            &&& (bind_to is Some && bind_to->0.port_range is Some) <==> exists|i: int|
                0 <= i < steps.len() && sets_port_range(#[trigger] steps[i])
        }),
{
    let platform = Platform::Linux;
    let steps = attempt(platform, addr, bind_to);
    if bind_to is Some {
        let b = bind_to->0;
        law_second_attempt_drops_only_the_range(platform, addr, b);
        let before = seq![open_step(addr)] + no_port_steps(platform) + nonlocal_steps(
            platform,
            addr,
            b,
        ) + mark_steps(platform, b);
        if b.port_range is Some {
            assert(steps[before.len() as int] == range_steps(platform, b)[0]);
            assert(sets_port_range(steps[before.len() as int]));
        } else {
            law_second_attempt_ignores_the_range(platform, addr, b);
            assert(range_steps(platform, b) == Seq::<Step>::empty());
            assert(steps =~= attempt(platform, addr, Some(b.without_range(platform))));
        }
    }
}

/// Restricting the local port is a no-op on systems that do not know the option, and fails on
/// any other error.
pub proof fn law_unknown_port_range_is_no_error(low: u16, high: u16, b: BindTo, e: OsError)
    requires
        b.port_range == Some((low, high)),
    ensures
        range_steps(Platform::Linux, b).len() == 1,
        failure(range_steps(Platform::Linux, b)[0].on_failure, Reply::Os(e)) is None
            <==> e.errno == Some(Errno::NoProtoOpt),
{
}

/// No two ranges of ports are handed over as the same value.
pub proof fn law_port_ranges_are_told_apart(low1: u16, high1: u16, low2: u16, high2: u16)
    requires
        port_range_value(low1, high1) == port_range_value(low2, high2),
    ensures
        low1 == low2,
        high1 == high2,
{
}

/// A buffer size that a C `int` can hold is read back as it was set, where the system gives back
/// the bytes that it was handed.
pub proof fn law_buffer_size_round_trip(val: usize, order: ByteOrder, payload: Seq<u8>)
    requires
        val <= i32::MAX,
        payload.len() == C_INT_LEN,
        to_c_int(number(order, payload) as int) == to_c_int(val as int),
    ensures
        to_usize(c_int_at(payload, order)) == val,
{
    let request = SetOpt {
        level: Level::Socket,
        name: OptName::RecvBuf,
        value: to_c_int(val as int),
    };
    law_c_int_round_trip(request, order, payload);
}

/// A port in network order is its first byte times 256 plus its second.
pub proof fn law_network_order_port(bytes: Seq<u8>)
    requires
        bytes.len() >= 4,
    ensures
        u16_at(bytes, 2, ByteOrder::Big) == 256 * bytes[2] + bytes[3],
{
    let s = bytes.subrange(2, 4);
    assert(number(ByteOrder::Big, s.drop_last().drop_last()) == 0);
    assert(number(ByteOrder::Big, s.drop_last()) == bytes[2]);
    assert(number(ByteOrder::Big, s) == bytes[3] + 256 * number(ByteOrder::Big, s.drop_last()));
}

/// Linux keepalive is FreeBSD keepalive with the user timeout set last.
pub proof fn law_linux_keepalive_extends_freebsd(ka: TcpKeepalive)
    ensures
        keepalive_opts(Platform::Linux, ka).drop_last() == keepalive_opts(Platform::FreeBsd, ka),
        keepalive_opts(Platform::Linux, ka).last().name is UserTimeout,
        keepalive_opts(Platform::FreeBsd, ka)[0] == (SetOpt {
            level: Level::Socket,
            name: OptName::KeepAlive,
            value: 1,
        }),
{
    assert(keepalive_opts(Platform::Linux, ka).drop_last() =~= keepalive_opts(
        Platform::FreeBsd,
        ka,
    ));
}

} // verus!
