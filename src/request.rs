use vstd::prelude::*;

use crate::addr::{
    decode_addr, encode_addr, lemma_addr_round_trip, reports, shifted, Addr, AddrModel, Decoded,
};
use crate::cmd::{cmd_of_code, code_of_cmd, Cmd};
use crate::error::{Error, ErrorKind};
use crate::filter::{
    allowed_before, filters_accept, first_denial, first_denied_at, FilterResult,
};
use crate::response::SOCKS_VERSION;

verus! {

/// A parsed SOCKS5 request, paired with the filter chain that governs it.
pub struct Request<'a, F> {
    pub cmd: Cmd,
    pub addr: Addr,
    pub filters: &'a Vec<F>,
}

impl<'a, F> View for Request<'a, F> {
    type V = (Cmd, AddrModel);

    open spec fn view(&self) -> (Cmd, AddrModel) {
        (self.cmd, self.addr@)
    }
}

/// Pairs the address read by `d` with the command `c`.
pub open spec fn with_cmd(c: Cmd, d: Decoded<AddrModel>) -> Decoded<(Cmd, AddrModel)> {
    match d {
        Decoded::Done(a, n) => Decoded::Done((c, a), n),
        Decoded::Incomplete => Decoded::Incomplete,
        Decoded::Failed(e) => Decoded::Failed(e),
    }
}

/// Reads a request header `VER | CMD | RSV | DST.ADDR | DST.PORT` off the
/// front of `b`. A wrong version is rejected from its first byte alone, an
/// unknown command from its second.
pub open spec fn decode_request(b: Seq<u8>) -> Decoded<(Cmd, AddrModel)> {
    if b.len() < 1 {
        Decoded::Incomplete
    } else if b[0] != SOCKS_VERSION {
        Decoded::Failed(ErrorKind::VersionMismatch)
    } else if b.len() < 2 {
        Decoded::Incomplete
    } else if cmd_of_code(b[1]) is None {
        Decoded::Failed(ErrorKind::CmdNotSupported)
    } else if b.len() < 3 {
        Decoded::Incomplete
    } else {
        with_cmd(cmd_of_code(b[1])->0, shifted(decode_addr(b.subrange(3, b.len() as int)), 3))
    }
}

impl<'a, F: Fn(&Addr) -> FilterResult> Request<'a, F> {
    /// Reads a request header off the front of `input`. `Ok(None)` means
    /// that more bytes are needed.
    pub fn from_stream(input: &[u8], filters: &'a Vec<F>) -> (r: Result<
        Option<(Self, usize)>,
        Error,
    >)
        ensures
            reports(r, decode_request(input@)),
            r matches Ok(Some((req, _))) ==> req.filters == filters,
    {
        if input.len() < 1 {
            return Ok(None);
        }
        if input[0] != SOCKS_VERSION {
            return Err(Error::VersionMismatch);
        }
        if input.len() < 2 {
            return Ok(None);
        }
        let cmd = match Cmd::try_from(input[1]) {
            Ok(c) => c,
            Err(e) => {
                return Err(e);
            },
        };
        if input.len() < 3 {
            return Ok(None);
        }
        let rest = vstd::slice::slice_subrange(input, 3, input.len());
        match Addr::from_stream(rest) {
            Ok(Some((addr, n))) => Ok(Some((Request { cmd, addr, filters }, n + 3))),
            Ok(None) => Ok(None),
            Err(e) => Err(e),
        }
    }

    /// Decides what becomes of this request: only CONNECT is served, and
    /// only when no filter denies its destination, which the filters see
    /// exactly as it was parsed.
    pub fn handle_inner(&self) -> (r: Result<(), Error>)
        requires
            filters_accept(self.filters@, &self.addr),
        ensures
            self.cmd != Cmd::Connect ==> (r matches Err(Error::CmdNotSupported(c)) && c
                == self.cmd),
            self.cmd == Cmd::Connect ==> match r {
                Ok(_) => allowed_before(
                    self.filters@,
                    &self.addr,
                    self.filters@.len() as int,
                ),
                Err(e) => e is BreaksRuleset && exists|k: int|
                    first_denied_at(self.filters@, &self.addr, k),
            },
    {
        match self.cmd {
            Cmd::Connect => {},
            cmd => {
                return Err(Error::CmdNotSupported(cmd));
            },
        }
        match first_denial(self.filters, &self.addr) {
            Some(_) => Err(Error::BreaksRuleset),
            None => Ok(()),
        }
    }
}

/// A request whose first byte is not the SOCKS5 version is rejected as a
/// version mismatch on that byte alone: nothing after it is looked at, and
/// no more bytes are waited for.
pub proof fn lemma_version_checked_first(v: u8, rest: Seq<u8>)
    requires
        v != SOCKS_VERSION,
    ensures
        decode_request(seq![v] + rest) == Decoded::<(Cmd, AddrModel)>::Failed(
            ErrorKind::VersionMismatch,
        ),
{
    assert((seq![v] + rest)[0] == v);
}

/// A complete header with a known command and a well-formed IPv4, IPv6 or
/// domain destination is read back as that command and destination, whatever
/// bytes follow it.
pub proof fn lemma_request_round_trip(c: Cmd, a: AddrModel, rest: Seq<u8>)
    requires
        a.wf(),
        !(a is Null),
    ensures
        decode_request(seq![SOCKS_VERSION, code_of_cmd(c), 0x00u8] + encode_addr(a) + rest)
            == Decoded::Done((c, a), 3 + encode_addr(a).len()),
{
    let b = seq![SOCKS_VERSION, code_of_cmd(c), 0x00u8] + encode_addr(a) + rest;
    assert(b.subrange(3, b.len() as int) =~= encode_addr(a) + rest);
    lemma_addr_round_trip(a, rest);
}

} // verus!
