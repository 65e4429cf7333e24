use vstd::prelude::*;

use crate::error::Error;

verus! {

/// The command of a SOCKS5 request.
#[derive(Debug, Clone, Copy, PartialEq, Eq, Structural)]
pub enum Cmd {
    Connect,
    Bind,
    UdpAssociate,
}

/// The command that a wire code stands for, if any.
pub open spec fn cmd_of_code(code: u8) -> Option<Cmd> {
    if code == 0x01 {
        Some(Cmd::Connect)
    } else if code == 0x02 {
        Some(Cmd::Bind)
    } else if code == 0x03 {
        Some(Cmd::UdpAssociate)
    } else {
        None
    }
}

/// The wire code of a command.
pub open spec fn code_of_cmd(c: Cmd) -> u8 {
    match c {
        Cmd::Connect => 0x01,
        Cmd::Bind => 0x02,
        Cmd::UdpAssociate => 0x03,
    }
}

impl Cmd {
    /// Decodes a command from its one-byte wire code.
    pub fn try_from(value: u8) -> (r: Result<Cmd, Error>)
        ensures
            match cmd_of_code(value) {
                Some(c) => r == Ok::<Cmd, Error>(c),
                None => r matches Err(Error::CmdNotSupported(_)),
            },
    {
        match value {
            0x01 => Ok(Cmd::Connect),
            0x02 => Ok(Cmd::Bind),
            0x03 => Ok(Cmd::UdpAssociate),
            _ => Err(Error::CmdNotSupported(Cmd::Connect)),
        }
    }

    /// The one-byte wire code of this command.
    pub fn code(&self) -> (r: u8)
        ensures
            r == code_of_cmd(*self),
    {
        match self {
            Cmd::Connect => 0x01,
            Cmd::Bind => 0x02,
            Cmd::UdpAssociate => 0x03,
        }
    }

    /// The human-readable name of this command.
    pub fn name(&self) -> (r: &'static str)
        ensures
            r@ == cmd_name(*self),
    {
        match self {
            Cmd::Connect => "Connect",
            Cmd::Bind => "Bind",
            Cmd::UdpAssociate => "UDP Associate",
        }
    }
}

pub open spec fn cmd_name(c: Cmd) -> Seq<char> {
    match c {
        Cmd::Connect => "Connect"@,
        Cmd::Bind => "Bind"@,
        Cmd::UdpAssociate => "UDP Associate"@,
    }
}

} // verus!
