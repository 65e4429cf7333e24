use vstd::prelude::*;

use crate::error::{Error, ErrorKind};

verus! {

/// How long an outbound connection may take to open, in seconds.
pub const CONNECT_TIMEOUT_SECS: u64 = 30;

/// How long a relay may run before it is cancelled, in seconds, whatever
/// traffic it carries.
pub const RELAY_CAP_SECS: u64 = 60;

/// Why an outbound connection could not be opened.
#[derive(Debug, Clone, PartialEq, Eq)]
pub enum ConnectFailure {
    /// The connect timeout expired first.
    TimedOut,
    Refused,
    NetworkUnreachable,
    HostUnreachable,
    TtlExpired,
    /// Any other transport failure, with its description.
    Other(String),
}

/// The kind of error that reports a failed outbound connection.
pub open spec fn connect_error_kind(f: ConnectFailure) -> ErrorKind {
    match f {
        ConnectFailure::TimedOut => ErrorKind::Internal,
        ConnectFailure::Refused => ErrorKind::ConnectionRefused,
        ConnectFailure::NetworkUnreachable => ErrorKind::NetworkUnreachable,
        ConnectFailure::HostUnreachable => ErrorKind::HostUnreachable,
        ConnectFailure::TtlExpired => ErrorKind::TtlExpired,
        ConnectFailure::Other(_) => ErrorKind::Io,
    }
}

impl Error {
    /// The error that reports a failed outbound connection: a timeout is an
    /// internal failure, the failures that SOCKS5 names keep their own kind,
    /// and the rest are transport failures.
    pub fn from_connect_failure(f: ConnectFailure) -> (r: Error)
        ensures
            r.kind() == connect_error_kind(f),
    {
        match f {
            ConnectFailure::TimedOut => Error::Internal("timed out on connecting to proxy address"),
            ConnectFailure::Refused => Error::ConnectionRefused,
            ConnectFailure::NetworkUnreachable => Error::NetworkUnreachable,
            ConnectFailure::HostUnreachable => Error::HostUnreachable,
            ConnectFailure::TtlExpired => Error::TtlExpired,
            ConnectFailure::Other(msg) => Error::Io(msg),
        }
    }
}

} // verus!
