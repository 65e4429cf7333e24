use vstd::prelude::*;

use crate::addr::{encode_addr, Addr, AddrModel};
use crate::error::{reply_code, Error};

verus! {

/// The protocol version byte of SOCKS5.
pub const SOCKS_VERSION: u8 = 0x05;

/// The reply code of a SOCKS5 response.
#[derive(Debug, Clone, Copy, PartialEq, Eq, Structural)]
pub struct Reply(pub u8);

impl Reply {
    /// The reply code that reports `err`.
    pub fn from_error(err: &Error) -> (r: Self)
        ensures
            r.0 == reply_code(err.kind()),
    {
        Reply(err.to_u8())
    }

    /// The reply code of success.
    pub fn success() -> (r: Self)
        ensures
            r.0 == 0x00,
    {
        Reply(0x00)
    }
}

/// A SOCKS5 reply: a code and the bound address.
#[derive(Debug)]
pub struct Response {
    pub reply: Reply,
    pub addr: Addr,
}

/// The wire form `VER | REP | RSV | BND.ADDR | BND.PORT` of a reply.
pub open spec fn response_bytes(code: u8, a: AddrModel) -> Seq<u8> {
    seq![SOCKS_VERSION, code, 0x00u8] + encode_addr(a)
}

/// The whole reply that reports a failure with the given code:
/// `05 REP 00 00 00 00`.
pub open spec fn error_reply(code: u8) -> Seq<u8> {
    response_bytes(code, AddrModel::Null)
}

impl Response {
    /// The reply to a failed request: the error's code and no address.
    pub fn from_error(error: &Error) -> (r: Self)
        ensures
            r.reply.0 == reply_code(error.kind()),
            r.addr == Addr::Null,
    {
        Response { reply: Reply::from_error(error), addr: Addr::Null }
    }

    /// The reply to a successful request, carrying the bound address.
    pub fn from_addr(addr: Addr) -> (r: Self)
        ensures
            r.reply.0 == 0x00,
            r.addr == addr,
    {
        Response { reply: Reply::success(), addr }
    }

    /// Appends the wire form of this reply to `out`.
    pub fn to_stream(&self, out: &mut Vec<u8>)
        requires
            self.addr.wf(),
        ensures
            final(out)@ == old(out)@ + response_bytes(self.reply.0, self.addr@),
    {
        let ghost start = out@;
        out.push(SOCKS_VERSION);
        out.push(self.reply.0);
        out.push(0x00);
        self.addr.to_stream(out);
        assert(final(out)@ =~= start + response_bytes(self.reply.0, self.addr@));
    }

    /// The wire form of this reply.
    pub fn to_bytes(&self) -> (r: Vec<u8>)
        requires
            self.addr.wf(),
        ensures
            r@ == response_bytes(self.reply.0, self.addr@),
    {
        let mut out: Vec<u8> = Vec::new();
        self.to_stream(&mut out);
        assert(out@ =~= response_bytes(self.reply.0, self.addr@));
        out
    }
}

/// An error reply is six bytes: version, code, reserved, and a null address
/// with port zero.
pub proof fn lemma_error_reply_bytes(code: u8)
    ensures
        error_reply(code) == seq![0x05u8, code, 0x00u8, 0x00u8, 0x00u8, 0x00u8],
{
    assert(error_reply(code) =~= seq![0x05u8, code, 0x00u8, 0x00u8, 0x00u8, 0x00u8]);
}

} // verus!
