//! The kinds of failure that the agent reports.

use vstd::prelude::*;
use vstd::string::*;

verus! {

#[derive(Clone, Copy, Debug, PartialEq, Eq, Structural)]
pub enum ErrorKind {
    /// A value failed validation.
    InvalidArgument,
    /// A command or path is not on the whitelist.
    PermissionDenied,
    /// A child process could not be started.
    Spawn,
    /// A child process ran and reported failure.
    ExitFailure,
    /// A filesystem operation failed.
    Io,
    /// A peer, a credential or a directive was rejected.
    SecurityViolation,
}

/// The status that a failed unary call is answered with.
#[derive(Clone, Copy, Debug, PartialEq, Eq, Structural)]
pub enum RpcCode {
    InvalidArgument,
    PermissionDenied,
    Internal,
}

/// The status for each kind of failure: what the caller sent wrong is an
/// invalid argument, what the agent refuses for safety is a denial, and what
/// went wrong on the host is internal.
pub open spec fn code_of(kind: ErrorKind) -> RpcCode {
    match kind {
        ErrorKind::InvalidArgument => RpcCode::InvalidArgument,
        ErrorKind::PermissionDenied => RpcCode::PermissionDenied,
        ErrorKind::SecurityViolation => RpcCode::PermissionDenied,
        ErrorKind::Spawn => RpcCode::Internal,
        ErrorKind::ExitFailure => RpcCode::Internal,
        ErrorKind::Io => RpcCode::Internal,
    }
}

#[derive(Debug)]
pub struct AgentError {
    pub kind: ErrorKind,
    pub message: String,
}

impl AgentError {
    /// The error has this kind and this message.
    pub open spec fn is(self, kind: ErrorKind, message: Seq<char>) -> bool {
        self.kind == kind && self.message@ == message
    }

    pub fn new(kind: ErrorKind, message: &str) -> (e: Self)
        ensures
            e.is(kind, message@),
    {
        AgentError { kind, message: String::from_str(message) }
    }

    /// The status that a call ending in this error is answered with.
    pub fn rpc_code(&self) -> (c: RpcCode)
        ensures
            c == code_of(self.kind),
    {
        match self.kind {
            ErrorKind::InvalidArgument => RpcCode::InvalidArgument,
            ErrorKind::PermissionDenied => RpcCode::PermissionDenied,
            ErrorKind::SecurityViolation => RpcCode::PermissionDenied,
            ErrorKind::Spawn => RpcCode::Internal,
            ErrorKind::ExitFailure => RpcCode::Internal,
            ErrorKind::Io => RpcCode::Internal,
        }
    }

    /// The error's message.
    pub fn to_string(&self) -> (s: String)
        ensures
            s@ == self.message@,
    {
        self.message.clone()
    }
}

/// The views of a list of strings, in order.
pub open spec fn views(v: Seq<String>) -> Seq<Seq<char>> {
    v.map_values(|s: String| s@)
}

} // verus!
