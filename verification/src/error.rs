//! What went wrong: the errors of system calls and the errors of the library.

use vstd::prelude::*;
use crate::addr::SocketAddr;

verus! {

/// The kinds of system error that the library tells apart.
#[derive(Clone, Copy, Debug, PartialEq, Eq, Structural)]
pub enum ErrorKind {
    ConnectionRefused,
    TimedOut,
    AddrNotAvailable,
    PermissionDenied,
    AddrInUse,
    /// Any other kind.
    Other,
}

/// The error numbers that the library tells apart.
#[derive(Clone, Copy, Debug, PartialEq, Eq, Structural)]
pub enum Errno {
    /// `ENOPROTOOPT`
    NoProtoOpt,
    /// `ENETUNREACH`
    NetUnreach,
    /// `EHOSTUNREACH`
    HostUnreach,
    /// Any other number.
    Other(i32),
}

/// The error of a failed system call.
#[derive(Clone, Copy, Debug, PartialEq, Eq, Structural)]
pub struct OsError {
    pub kind: ErrorKind,
    /// The error number, where the system gave one.
    pub errno: Option<Errno>,
}

/// The error of reading a socket option.
#[derive(Clone, Copy, Debug, PartialEq, Eq)]
pub enum IoError {
    /// The call failed.
    Os(OsError),
    /// The call succeeded, but what it gave cannot be used, for the reason given.
    Other(&'static str),
}

/// The type of an [`Error`].
#[derive(Clone, Copy, Debug, PartialEq, Eq, Structural)]
pub enum ErrorType {
    /// Connecting failed in a way that no other type names.
    ConnectError,
    /// The peer refused the connection.
    ConnectRefused,
    /// Connecting took too long.
    ConnectTimedout,
    /// There is no route to the peer.
    ConnectNoRoute,
    /// The local address could not be taken.
    BindError,
    /// A socket could not be made, asked or set.
    SocketError,
    /// The fault is this host's own.
    InternalError,
}

/// What a context's text speaks of.
#[derive(Debug, PartialEq, Eq)]
pub enum Subject {
    /// Nothing: the text is the whole context.
    Nothing,
    /// An address, which is shown behind the text.
    Addr(SocketAddr),
    /// A path, which is shown behind the text.
    Path(String),
}

/// What was being done when an error came up: a text, and behind it the subject.
#[derive(Debug, PartialEq, Eq)]
pub struct Context {
    pub text: &'static str,
    pub subject: Subject,
}

/// An error of the library.
#[derive(Debug, PartialEq, Eq)]
pub struct Error {
    pub etype: ErrorType,
    pub context: Context,
    /// The system error behind it, if there is one.
    pub cause: Option<IoError>,
}

/// The error of type `etype` with the context `text` and the given cause.
pub open spec fn reported(etype: ErrorType, text: &'static str, cause: Option<IoError>) -> Error {
    Error { etype, context: Context { text, subject: Subject::Nothing }, cause }
}

/// Makes an error of type `etype` with the context `text` and the given cause.
pub fn report(etype: ErrorType, text: &'static str, cause: Option<IoError>) -> (e: Error)
    ensures
        e == reported(etype, text, cause),
        e.etype == etype,
        e.context.text == text,
        e.context.subject == Subject::Nothing,
        e.cause == cause,
{
    Error { etype, context: Context { text, subject: Subject::Nothing }, cause }
}

/// The type that an error of `connect()` is reported under. The kind decides; where it names no
/// cause of its own, the error number tells a missing route from the rest.
pub open spec fn connect_error_type(e: OsError) -> ErrorType {
    match e.kind {
        ErrorKind::ConnectionRefused => ErrorType::ConnectRefused,
        ErrorKind::TimedOut => ErrorType::ConnectTimedout,
        ErrorKind::AddrNotAvailable => ErrorType::BindError,
        ErrorKind::PermissionDenied | ErrorKind::AddrInUse => ErrorType::InternalError,
        ErrorKind::Other => if e.errno == Some(Errno::NetUnreach) || e.errno == Some(
            Errno::HostUnreach,
        ) {
            ErrorType::ConnectNoRoute
        } else {
            ErrorType::ConnectError
        },
    }
}

/// Makes the library's error of a failed `connect()`.
pub fn wrap_os_connect_error(e: OsError, context: Context) -> (r: Error)
    ensures
        r == (Error { etype: connect_error_type(e), context, cause: Some(IoError::Os(e)) }),
        r.etype is ConnectRefused <==> e.kind is ConnectionRefused,
        r.etype is ConnectTimedout <==> e.kind is TimedOut,
        r.etype is BindError <==> e.kind is AddrNotAvailable,
        r.etype is InternalError <==> e.kind is PermissionDenied || e.kind is AddrInUse,
        r.etype is ConnectNoRoute <==> e.kind is Other && (e.errno == Some(Errno::NetUnreach)
            || e.errno == Some(Errno::HostUnreach)),
        !(r.etype is SocketError),
{
    let etype: ErrorType = match e.kind {
        ErrorKind::ConnectionRefused => ErrorType::ConnectRefused,
        ErrorKind::TimedOut => ErrorType::ConnectTimedout,
        ErrorKind::AddrNotAvailable => ErrorType::BindError,
        ErrorKind::PermissionDenied | ErrorKind::AddrInUse => ErrorType::InternalError,
        ErrorKind::Other => match e.errno {
            Some(Errno::NetUnreach) | Some(Errno::HostUnreach) => ErrorType::ConnectNoRoute,
            _ => ErrorType::ConnectError,
        },
    };
    Error { etype, context, cause: Some(IoError::Os(e)) }
}

/// Each type that an error of `connect()` can have comes of its own causes and of no others;
/// what no type names is a `ConnectError`.
pub proof fn law_connect_errors_by_cause(e: OsError)
    ensures
        connect_error_type(e) is ConnectRefused <==> e.kind is ConnectionRefused,
        connect_error_type(e) is ConnectTimedout <==> e.kind is TimedOut,
        connect_error_type(e) is BindError <==> e.kind is AddrNotAvailable,
        connect_error_type(e) is InternalError <==> e.kind is PermissionDenied
            || e.kind is AddrInUse,
        connect_error_type(e) is ConnectNoRoute <==> e.kind is Other && (e.errno == Some(
            Errno::NetUnreach,
        ) || e.errno == Some(Errno::HostUnreach)),
        !(connect_error_type(e) is SocketError),
{
}

/// Reads the return value of a system call: -1 says that it failed, with `last_os_error` as the
/// reason; every other value is the call's result.
pub fn cvt_linux_error(t: i32, last_os_error: OsError) -> (r: Result<i32, OsError>)
    ensures
        r == (if t == -1 {
            Err::<i32, OsError>(last_os_error)
        } else {
            Ok(t)
        }),
{
    if t == -1 {
        Err(last_os_error)
    } else {
        Ok(t)
    }
}

} // verus!
