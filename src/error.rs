use vstd::prelude::*;

use crate::cmd::Cmd;

verus! {

/// Why a connection failed.
#[derive(Debug)]
pub enum Error {
    /// A transport failure, with its description.
    Io(String),
    /// A domain that is too long, not valid text, or that resolves to nothing.
    InvalidDomain(String),
    InvalidAuth,
    VersionMismatch,
    BreaksRuleset,
    NetworkUnreachable,
    HostUnreachable,
    ConnectionRefused,
    TtlExpired,
    CmdNotSupported(Cmd),
    AddressTypeNotSupported,
    Internal(&'static str),
}

/// The kind of an [`Error`], without its payload.
#[derive(Debug, Clone, Copy, PartialEq, Eq, Structural)]
pub enum ErrorKind {
    Io,
    InvalidDomain,
    InvalidAuth,
    VersionMismatch,
    BreaksRuleset,
    NetworkUnreachable,
    HostUnreachable,
    ConnectionRefused,
    TtlExpired,
    CmdNotSupported,
    AddressTypeNotSupported,
    Internal,
}

/// The SOCKS5 reply code that reports a failure of the given kind.
pub open spec fn reply_code(k: ErrorKind) -> u8 {
    match k {
        ErrorKind::Io => 0x01,
        ErrorKind::InvalidAuth => 0xFF,
        ErrorKind::VersionMismatch => 0x01,
        ErrorKind::BreaksRuleset => 0x02,
        ErrorKind::NetworkUnreachable => 0x03,
        ErrorKind::HostUnreachable => 0x04,
        ErrorKind::ConnectionRefused => 0x05,
        ErrorKind::TtlExpired => 0x06,
        ErrorKind::CmdNotSupported => 0x07,
        ErrorKind::AddressTypeNotSupported => 0x08,
        ErrorKind::InvalidDomain => 0x01,
        ErrorKind::Internal => 0x01,
    }
}

impl Error {
    pub open spec fn spec_kind(&self) -> ErrorKind {
        match self {
            Error::Io(_) => ErrorKind::Io,
            Error::InvalidDomain(_) => ErrorKind::InvalidDomain,
            Error::InvalidAuth => ErrorKind::InvalidAuth,
            Error::VersionMismatch => ErrorKind::VersionMismatch,
            Error::BreaksRuleset => ErrorKind::BreaksRuleset,
            Error::NetworkUnreachable => ErrorKind::NetworkUnreachable,
            Error::HostUnreachable => ErrorKind::HostUnreachable,
            Error::ConnectionRefused => ErrorKind::ConnectionRefused,
            Error::TtlExpired => ErrorKind::TtlExpired,
            Error::CmdNotSupported(_) => ErrorKind::CmdNotSupported,
            Error::AddressTypeNotSupported => ErrorKind::AddressTypeNotSupported,
            Error::Internal(_) => ErrorKind::Internal,
        }
    }

    /// The kind of this error.
    #[verifier::when_used_as_spec(spec_kind)]
    pub fn kind(&self) -> (r: ErrorKind)
        ensures
            r == self.spec_kind(),
    {
        match self {
            Error::Io(_) => ErrorKind::Io,
            Error::InvalidDomain(_) => ErrorKind::InvalidDomain,
            Error::InvalidAuth => ErrorKind::InvalidAuth,
            Error::VersionMismatch => ErrorKind::VersionMismatch,
            Error::BreaksRuleset => ErrorKind::BreaksRuleset,
            Error::NetworkUnreachable => ErrorKind::NetworkUnreachable,
            Error::HostUnreachable => ErrorKind::HostUnreachable,
            Error::ConnectionRefused => ErrorKind::ConnectionRefused,
            Error::TtlExpired => ErrorKind::TtlExpired,
            Error::CmdNotSupported(_) => ErrorKind::CmdNotSupported,
            Error::AddressTypeNotSupported => ErrorKind::AddressTypeNotSupported,
            Error::Internal(_) => ErrorKind::Internal,
        }
    }

    /// The SOCKS5 reply code that reports this error to the client.
    pub fn to_u8(&self) -> (r: u8)
        ensures
            r == reply_code(self.kind()),
    {
        match self {
            Error::Io(_) => 0x01,
            Error::InvalidAuth => 0xFF,
            Error::VersionMismatch => 0x01,
            Error::BreaksRuleset => 0x02,
            Error::NetworkUnreachable => 0x03,
            Error::HostUnreachable => 0x04,
            Error::ConnectionRefused => 0x05,
            Error::TtlExpired => 0x06,
            Error::CmdNotSupported(_) => 0x07,
            Error::AddressTypeNotSupported => 0x08,
            Error::InvalidDomain(_) => 0x01,
            Error::Internal(_) => 0x01,
        }
    }
}

} // verus!
