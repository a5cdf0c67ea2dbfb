//! Scripts: sequences of system calls, each with what its failure means.
//!
//! A script decides; it performs nothing. The caller asks for the next call, performs it and
//! hands back the reply, until the script is finished or a reply makes it fail.

use vstd::prelude::*;
use crate::addr::SocketAddr;
use crate::error::{
    connect_error_type, report, reported, wrap_os_connect_error, Context, Errno, Error, ErrorType,
    IoError, OsError, Subject,
};
use crate::sockopt::SetOpt;

verus! {

/// A call that a script asks for.
#[derive(Clone, Copy, Debug, PartialEq, Eq)]
pub enum Call {
    /// Make a new TCP socket of the given address family; the calls that follow are on it.
    OpenSocket { ipv6: bool },
    /// Set an option.
    SetOpt(SetOpt),
    /// Set `SO_REUSEADDR`.
    ReuseAddr(bool),
    /// Bind to a local address.
    Bind(SocketAddr),
    /// Hand the socket to the user's hook.
    Tune,
    /// Connect to a remote address.
    Connect(SocketAddr),
}

/// What the failure of a call means.
#[derive(Clone, Copy, Debug, PartialEq, Eq)]
pub enum OnFailure {
    /// An error of this type with this context.
    Report(ErrorType, &'static str),
    /// The same, except that a system which does not know the option is taken for success.
    ReportUnlessUnsupported(ErrorType, &'static str),
    /// An error of this type with this context, which names the address.
    ReportAddr(ErrorType, &'static str, SocketAddr),
    /// An error of the type that fits the system error, with this context, which names the
    /// address.
    Classify(&'static str, SocketAddr),
    /// The hook's own error.
    Hook,
}

/// A call with what its failure means.
#[derive(Clone, Copy, Debug, PartialEq, Eq)]
pub struct Step {
    pub call: Call,
    pub on_failure: OnFailure,
}

/// What came of a call.
#[derive(Debug, PartialEq, Eq)]
pub enum Reply {
    /// It succeeded.
    Done,
    /// The system call failed.
    Os(OsError),
    /// The user's hook failed.
    Hook(Error),
}

/// A hook fails with an error of its own, a system call with a system error.
pub open spec fn fits(on_failure: OnFailure, reply: Reply) -> bool {
    match reply {
        Reply::Done => true,
        Reply::Os(_) => !(on_failure is Hook),
        Reply::Hook(_) => on_failure is Hook,
    }
}

/// The error that a reply amounts to, if it amounts to one.
pub open spec fn failure(on_failure: OnFailure, reply: Reply) -> Option<Error> {
    match (reply, on_failure) {
        (Reply::Done, _) => None,
        (Reply::Hook(e), _) => Some(e),
        (Reply::Os(e), OnFailure::Report(etype, text)) => Some(
            reported(etype, text, Some(IoError::Os(e))),
        ),
        (Reply::Os(e), OnFailure::ReportUnlessUnsupported(etype, text)) => if e.errno == Some(
            Errno::NoProtoOpt,
        ) {
            None
        } else {
            Some(reported(etype, text, Some(IoError::Os(e))))
        },
        (Reply::Os(e), OnFailure::ReportAddr(etype, text, addr)) => Some(
            Error {
                etype,
                context: Context { text, subject: Subject::Addr(addr) },
                cause: Some(IoError::Os(e)),
            },
        ),
        (Reply::Os(e), OnFailure::Classify(text, addr)) => Some(
            Error {
                etype: connect_error_type(e),
                context: Context { text, subject: Subject::Addr(addr) },
                cause: Some(IoError::Os(e)),
            },
        ),
        (Reply::Os(e), OnFailure::Hook) => None,
    }
}

/// What a whole script comes to under a sequence of replies, with how many of them it takes:
/// the first failure ends it, and so does the success of the last call. `None` if the replies
/// run out before.
pub open spec fn run(steps: Seq<Step>, replies: Seq<Reply>) -> Option<(Result<(), Error>, nat)>
    decreases steps.len(),
{
    if steps.len() == 0 {
        Some((Ok(()), 0))
    } else if replies.len() == 0 {
        None
    } else {
        match failure(steps[0].on_failure, replies[0]) {
            Some(e) => Some((Err(e), 1)),
            None => match run(steps.drop_first(), replies.drop_first()) {
                Some((r, n)) => Some((r, n + 1)),
                None => None,
            },
        }
    }
}

impl OnFailure {
    /// The error that `reply` amounts to.
    pub fn judge(self, reply: Reply) -> (r: Option<Error>)
        requires
            fits(self, reply),
        ensures
            r == failure(self, reply),
            r is None <==> reply is Done || (self is ReportUnlessUnsupported && reply is Os
                && reply->Os_0.errno == Some(Errno::NoProtoOpt)),
            reply matches Reply::Hook(e) ==> r == Some(e),
            r is Some ==> (reply matches Reply::Os(e) ==> r->0.cause == Some(IoError::Os(e))),
    {
        match reply {
            Reply::Done => None,
            Reply::Hook(e) => Some(e),
            Reply::Os(e) => match self {
                OnFailure::Report(etype, text) => Some(report(etype, text, Some(IoError::Os(e)))),
                OnFailure::ReportUnlessUnsupported(etype, text) => match unless_unsupported(
                    Err(e),
                ) {
                    Ok(()) => None,
                    Err(e) => Some(report(etype, text, Some(IoError::Os(e)))),
                },
                OnFailure::ReportAddr(etype, text, addr) => Some(
                    Error {
                        etype,
                        context: Context { text, subject: Subject::Addr(addr) },
                        cause: Some(IoError::Os(e)),
                    },
                ),
                OnFailure::Classify(text, addr) => Some(
                    wrap_os_connect_error(e, Context { text, subject: Subject::Addr(addr) }),
                ),
                OnFailure::Hook => None,
            },
        }
    }
}

/// Takes "there is no such option" (`ENOPROTOOPT`) for success: an option that a system does
/// not know is not asked of it.
pub fn unless_unsupported(result: Result<(), OsError>) -> (r: Result<(), OsError>)
    ensures
        r == (match result {
            Err(e) => if e.errno == Some(Errno::NoProtoOpt) {
                Ok::<(), OsError>(())
            } else {
                Err(e)
            },
            Ok(()) => Ok(()),
        }),
{
    match result {
        Err(e) => match e.errno {
            Some(Errno::NoProtoOpt) => Ok(()),
            _ => Err(e),
        },
        Ok(()) => Ok(()),
    }
}

/// A script under way.
pub struct Script {
    steps: Vec<Step>,
    done: usize,
}

impl View for Script {
    type V = Seq<Step>;

    /// The steps that are left.
    closed spec fn view(&self) -> Seq<Step> {
        self.steps@.skip(self.done as int)
    }
}

impl Script {
    #[verifier::type_invariant]
    spec fn well_formed(self) -> bool {
        self.done <= self.steps@.len()
    }

    /// A script of the given steps.
    pub fn new(steps: Vec<Step>) -> (s: Script)
        ensures
            s@ == steps@,
    {
        let s = Script { steps, done: 0 };
        assert(s@ =~= steps@);
        s
    }

    /// The call that is to be performed next; `None` says that the script is finished.
    pub fn next(&self) -> (r: Option<Call>)
        ensures
            r == (if self@.len() == 0 {
                None
            } else {
                Some(self@[0].call)
            }),
    {
        proof {
            use_type_invariant(self);
        }
        if self.done == self.steps.len() {
            None
        } else {
            Some(self.steps[self.done].call)
        }
    }

    /// Takes the reply to the call that [`Script::next`] named. On success the script moves on;
    /// on failure it stays where it is.
    pub fn feed(&mut self, reply: Reply) -> (r: Result<(), Error>)
        requires
            old(self)@.len() > 0,
            fits(old(self)@[0].on_failure, reply),
        ensures
            match failure(old(self)@[0].on_failure, reply) {
                Some(e) => r == Err::<(), Error>(e) && final(self)@ == old(self)@,
                None => r == Ok::<(), Error>(()) && final(self)@ == old(self)@.drop_first(),
            },
    {
        proof {
            use_type_invariant(&*self);
        }
        let len: usize = self.steps.len();
        assert(self.done < len);
        match self.steps[self.done].on_failure.judge(reply) {
            Some(e) => Err(e),
            None => {
                self.done = self.done + 1;
                assert(self@ =~= old(self)@.drop_first());
                Ok(())
            },
        }
    }
}

/// Every reply to a step is taken, except that a system error is none of a hook's and a hook's
/// error is none of the system's.
pub proof fn law_which_replies_fit(on_failure: OnFailure, e: OsError, own: Error)
    ensures
        fits(on_failure, Reply::Done),
        fits(on_failure, Reply::Os(e)) <==> !(on_failure is Hook),
        fits(on_failure, Reply::Hook(own)) <==> on_failure is Hook,
{
}

/// Success is never an error, and a hook's error is passed on as it is.
pub proof fn law_success_and_hooks(on_failure: OnFailure, own: Error)
    ensures
        failure(on_failure, Reply::Done) is None,
        failure(on_failure, Reply::Hook(own)) == Some(own),
{
}

/// A failed system call is an error with the failure as its cause, and with the type, the text
/// and the address that the step has for it. Only a step that tolerates an unknown option takes
/// that one failure for success; and only a step that classifies lets the failure choose the
/// type.
pub proof fn law_failed_calls_are_reported(
    e: OsError,
    etype: ErrorType,
    text: &'static str,
    addr: SocketAddr,
)
    ensures
        failure(OnFailure::Report(etype, text), Reply::Os(e)) matches Some(r) && {
            &&& r.etype == etype
            &&& r.context.text == text
            &&& r.context.subject == Subject::Nothing
            &&& r.cause == Some(IoError::Os(e))
        },
        e.errno == Some(Errno::NoProtoOpt) ==> failure(
            OnFailure::ReportUnlessUnsupported(etype, text),
            Reply::Os(e),
        ) is None,
        e.errno != Some(Errno::NoProtoOpt) ==> (failure(
            OnFailure::ReportUnlessUnsupported(etype, text),
            Reply::Os(e),
        ) matches Some(r) && {
            &&& r.etype == etype
            &&& r.context.text == text
            &&& r.context.subject == Subject::Nothing
            &&& r.cause == Some(IoError::Os(e))
        }),
        failure(OnFailure::ReportAddr(etype, text, addr), Reply::Os(e)) matches Some(r) && {
            &&& r.etype == etype
            &&& r.context.text == text
            &&& r.context.subject == Subject::Addr(addr)
            &&& r.cause == Some(IoError::Os(e))
        },
        failure(OnFailure::Classify(text, addr), Reply::Os(e)) matches Some(r) && {
            &&& r.etype == connect_error_type(e)
            &&& r.context.text == text
            &&& r.context.subject == Subject::Addr(addr)
            &&& r.cause == Some(IoError::Os(e))
        },
{
}

/// While every reply so far is no failure, a script goes on where it stands.
pub proof fn law_run_from(steps: Seq<Step>, replies: Seq<Reply>, i: int)
    requires
        0 <= i <= steps.len(),
        i <= replies.len(),
        forall|j: int| 0 <= j < i ==> failure(#[trigger] steps[j].on_failure, replies[j]) is None,
    ensures
        match run(steps.skip(i), replies.skip(i)) {
            Some((r, n)) => run(steps, replies) == Some((r, (n + i) as nat)),
            None => run(steps, replies) is None,
        },
    decreases i,
{
    if i == 0 {
        assert(steps.skip(0) =~= steps);
        assert(replies.skip(0) =~= replies);
    } else {
        let s = steps.drop_first();
        let r = replies.drop_first();
        assert(failure(steps[0].on_failure, replies[0]) is None);
        assert forall|j: int| 0 <= j < i - 1 implies failure(
            #[trigger] s[j].on_failure,
            r[j],
        ) is None by {
            assert(s[j] == steps[j + 1]);
        }
        law_run_from(s, r, i - 1);
        assert(s.skip(i - 1) =~= steps.skip(i));
        assert(r.skip(i - 1) =~= replies.skip(i));
    }
}

/// A script whose every reply is no failure succeeds, after as many replies as it has steps.
pub proof fn law_run_succeeds(steps: Seq<Step>, replies: Seq<Reply>)
    requires
        steps.len() <= replies.len(),
        forall|j: int|
            0 <= j < steps.len() ==> failure(#[trigger] steps[j].on_failure, replies[j]) is None,
    ensures
        run(steps, replies) == Some((Ok::<(), Error>(()), steps.len())),
{
    law_run_from(steps, replies, steps.len() as int);
}

/// The first failure ends a script: it comes to that error, and nothing behind it is asked for.
pub proof fn law_run_fails(steps: Seq<Step>, replies: Seq<Reply>, i: int)
    requires
        0 <= i < steps.len(),
        i < replies.len(),
        forall|j: int| 0 <= j < i ==> failure(#[trigger] steps[j].on_failure, replies[j]) is None,
        failure(steps[i].on_failure, replies[i]) is Some,
    ensures
        run(steps, replies) == Some(
            (
                Err::<(), Error>(failure(steps[i].on_failure, replies[i])->0),
                (i + 1) as nat,
            ),
        ),
{
    law_run_from(steps, replies, i);
    assert(steps.skip(i)[0] == steps[i]);
    assert(replies.skip(i)[0] == replies[i]);
}

/// A script that has had fewer replies than it has steps, none of them a failure, has come to
/// nothing yet.
pub proof fn law_run_waits(steps: Seq<Step>, replies: Seq<Reply>)
    requires
        replies.len() < steps.len(),
        forall|j: int|
            0 <= j < replies.len() ==> failure(#[trigger] steps[j].on_failure, replies[j]) is None,
    ensures
        run(steps, replies) is None,
{
    law_run_from(steps, replies, replies.len() as int);
}

} // verus!
