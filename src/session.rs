use vstd::prelude::*;

use crate::addr::{Addr, AddrModel, Decoded, IpAddr};
use crate::cmd::Cmd;
use crate::error::{reply_code, Error, ErrorKind};
use crate::filter::{allowed_before, filters_accept, first_denied_at, FilterResult};
use crate::proxy::{connect_error_kind, ConnectFailure};
use crate::request::{decode_request, Request};
use crate::response::{error_reply, response_bytes, Response, SOCKS_VERSION};

verus! {

/// The authentication method "no authentication required".
pub const NO_AUTH: u8 = 0x00;

/// The method byte that rejects every offered method.
pub const NO_ACCEPTABLE_METHOD: u8 = 0xFF;

/// Where a connection stands.
#[derive(Debug, Clone, Copy, PartialEq, Eq, Structural)]
pub enum Phase {
    /// Waiting for the method negotiation `VER | NMETHODS | METHODS`.
    Greeting,
    /// Waiting for the request header.
    Request,
    /// Waiting for the lookup of the destination's domain.
    Resolving,
    /// Waiting for the outbound connection to open.
    Connecting,
    /// The success reply is out; bytes are relayed.
    Relaying,
    /// The connection failed and is closed.
    Closed,
}

/// What the I/O layer must do next for a connection.
#[derive(Debug)]
pub enum Step {
    /// Read more bytes from the client and hand them to `feed`.
    Read,
    /// Write these bytes to the client, then ask for the next step.
    Write(Vec<u8>),
    /// Look up this domain and hand every address found, in order, to `resolved`.
    Resolve(String, u16),
    /// Open an outbound TCP connection to this endpoint within the connect
    /// timeout and hand the outcome to `connected`.
    Connect(IpAddr, u16),
    /// Write this success reply to the client, then relay bytes both ways
    /// under the relay cap.
    Relay(Vec<u8>),
    /// Write these bytes to the client, then close: the connection failed.
    Fail(Vec<u8>, Error),
}

/// The reply to a method negotiation.
pub open spec fn auth_reply(accepted: bool) -> Seq<u8> {
    seq![SOCKS_VERSION, if accepted { NO_AUTH } else { NO_ACCEPTABLE_METHOD }]
}

/// Reads a method negotiation off the front of `b`: whether "no
/// authentication" is among the offered methods, and its length. The version
/// byte is not checked here.
pub open spec fn decode_greeting(b: Seq<u8>) -> Option<(bool, nat)> {
    if b.len() < 2 || b.len() < 2 + b[1] {
        None
    } else {
        Some((b.subrange(2, 2 + b[1] as int).contains(NO_AUTH), (2 + b[1]) as nat))
    }
}

/// `s` fails the connection with an error of kind `k`, after writing the
/// error reply with the matching code.
pub open spec fn fails_with(s: Step, k: ErrorKind) -> bool {
    match s {
        Step::Fail(w, e) => e.kind() == k && w@ == error_reply(reply_code(k)),
        _ => false,
    }
}

/// `s` goes on towards the destination `a`: a domain is looked up first, an
/// IP endpoint is connected to.
pub open spec fn heads_for(s: Step, a: AddrModel) -> bool {
    match a {
        AddrModel::Domain(name, port) => match s {
            Step::Resolve(n, p) => n@ == name && p == port,
            _ => false,
        },
        _ => match s {
            Step::Connect(ip, p) => Addr::Ip(ip, p)@ == a,
            _ => false,
        },
    }
}

/// Scans `methods` for "no authentication".
pub fn offers_no_auth(methods: &[u8]) -> (r: bool)
    ensures
        r == methods@.contains(NO_AUTH),
{
    let mut i: usize = 0;
    while i < methods.len()
        invariant
            i <= methods@.len(),
            forall|j: int| 0 <= j < i ==> methods@[j] != NO_AUTH,
        decreases methods.len() - i,
    {
        if methods[i] == NO_AUTH {
            assert(methods@[i as int] == NO_AUTH);
            return true;
        }
        i = i + 1;
    }
    false
}

/// Reads a method negotiation off the front of `input`: whether "no
/// authentication" is offered, and how many bytes it took. `None` means that
/// more bytes are needed.
pub fn negotiate_auth(input: &[u8]) -> (r: Option<(bool, usize)>)
    ensures
        match decode_greeting(input@) {
            None => r is None,
            Some((ok, n)) => r == Some((ok, n as usize)),
        },
{
    if input.len() < 2 {
        return None;
    }
    let count = input[1] as usize;
    if input.len() < 2 + count {
        return None;
    }
    let methods = vstd::slice::slice_subrange(input, 2, 2 + count);
    assert(methods@ =~= input@.subrange(2, 2 + count as int));
    Some((offers_no_auth(methods), 2 + count))
}

fn two_bytes(a: u8, b: u8) -> (r: Vec<u8>)
    ensures
        r@ == seq![a, b],
{
    let mut v: Vec<u8> = Vec::new();
    v.push(a);
    v.push(b);
    assert(v@ =~= seq![a, b]);
    v
}

/// The reply that reports `e`, with a null address.
fn error_reply_for(e: &Error) -> (r: Vec<u8>)
    ensures
        r@ == error_reply(reply_code(e.kind())),
{
    Response::from_error(e).to_bytes()
}

/// The decisions of one client connection, from the method negotiation to
/// the start of the relay. The I/O layer performs each [`Step`] and hands
/// back what came of it.
pub struct Session {
    pub phase: Phase,
    /// Bytes received from the client and not yet consumed.
    pub buf: Vec<u8>,
    /// The destination of the request, once one was read.
    pub target: Addr,
}

impl Session {
    /// A connection that has received nothing yet.
    pub fn new() -> (r: Session)
        ensures
            r.phase == Phase::Greeting,
            r.buf@ == Seq::<u8>::empty(),
            r.target == Addr::Null,
    {
        Session { phase: Phase::Greeting, buf: Vec::new(), target: Addr::Null }
    }

    /// Takes bytes received from the client.
    pub fn feed(&mut self, data: &[u8])
        ensures
            final(self).buf@ == old(self).buf@ + data@,
            final(self).phase == old(self).phase,
            final(self).target == old(self).target,
    {
        let mut i: usize = 0;
        let ghost start = self.buf@;
        while i < data.len()
            invariant
                i <= data@.len(),
                self.buf@ == start + data@.subrange(0, i as int),
                self.phase == old(self).phase,
                self.target == old(self).target,
            decreases data.len() - i,
        {
            self.buf.push(data[i]);
            i = i + 1;
            assert(self.buf@ =~= start + data@.subrange(0, i as int));
        }
        assert(data@.subrange(0, i as int) =~= data@);
    }

    /// Drops the first `n` received bytes.
    fn consume(&mut self, n: usize)
        requires
            n <= old(self).buf@.len(),
        ensures
            final(self).buf@ == old(self).buf@.skip(n as int),
            final(self).phase == old(self).phase,
            final(self).target == old(self).target,
    {
        let rest = self.buf.split_off(n);
        self.buf = rest;
    }
    /// Answers the method negotiation once it is all there: "no
    /// authentication" is accepted, and nothing else is.
    fn greet(&mut self) -> (r: Step)
        requires
            old(self).phase == Phase::Greeting,
        ensures
            match decode_greeting(old(self).buf@) {
                None => r is Read && *final(self) == *old(self),
                Some((ok, n)) => {
                    &&& final(self).buf@ == old(self).buf@.skip(n as int)
                    &&& final(self).target == old(self).target
                    &&& if ok {
                        final(self).phase == Phase::Request && (r matches Step::Write(w) && w@
                            == auth_reply(true))
                    } else {
                        final(self).phase == Phase::Closed && (r matches Step::Fail(w, e) && w@
                            == auth_reply(false) && e is InvalidAuth)
                    }
                },
            },
    {
        match negotiate_auth(self.buf.as_slice()) {
            None => Step::Read,
            Some((ok, n)) => {
                self.consume(n);
                if ok {
                    self.phase = Phase::Request;
                    Step::Write(two_bytes(SOCKS_VERSION, NO_AUTH))
                } else {
                    self.phase = Phase::Closed;
                    Step::Fail(two_bytes(SOCKS_VERSION, NO_ACCEPTABLE_METHOD), Error::InvalidAuth)
                }
            },
        }
    }

    /// Fails the connection with `e`.
    fn fail(&mut self, e: Error) -> (r: Step)
        ensures
            fails_with(r, e.kind()),
            final(self).phase == Phase::Closed,
            final(self).buf == old(self).buf,
            final(self).target == old(self).target,
    {
        self.phase = Phase::Closed;
        let w = error_reply_for(&e);
        Step::Fail(w, e)
    }

    /// Heads for a destination that the filters let through.
    fn head_for(&mut self, addr: Addr) -> (r: Step)
        requires
            !(addr is Null),
        ensures
            heads_for(r, addr@),
            final(self).target == addr,
            final(self).buf == old(self).buf,
            final(self).phase == if addr is Domain {
                Phase::Resolving
            } else {
                Phase::Connecting
            },
    {
        match &addr {
            Addr::Domain(name, port) => {
                let n = name.clone();
                let p = *port;
                self.phase = Phase::Resolving;
                self.target = addr;
                Step::Resolve(n, p)
            },
            Addr::Ip(ip, port) => {
                let (i, p) = (*ip, *port);
                self.phase = Phase::Connecting;
                self.target = addr;
                Step::Connect(i, p)
            },
            Addr::Null => Step::Read,
        }
    }

    /// Reads the request header once it is all there and decides on it:
    /// a malformed header, a command other than CONNECT and a destination
    /// that a filter denies each fail the connection with one error reply.
    fn on_request<F: Fn(&Addr) -> FilterResult>(&mut self, filters: &Vec<F>) -> (r: Step)
        requires
            old(self).phase == Phase::Request,
            forall|a: Addr| #[trigger] filters_accept(filters@, &a),
        ensures
            match decode_request(old(self).buf@) {
                Decoded::Incomplete => r is Read && *final(self) == *old(self),
                Decoded::Failed(k) => {
                    &&& fails_with(r, k)
                    &&& final(self).phase == Phase::Closed
                    &&& final(self).buf == old(self).buf
                },
                Decoded::Done((cmd, a), n) => {
                    &&& final(self).buf@ == old(self).buf@.skip(n as int)
                    &&& final(self).target@ == a
                    &&& if cmd != Cmd::Connect {
                        fails_with(r, ErrorKind::CmdNotSupported) && final(self).phase
                            == Phase::Closed
                    } else if r is Fail {
                        &&& fails_with(r, ErrorKind::BreaksRuleset)
                        &&& final(self).phase == Phase::Closed
                        &&& exists|k: int| first_denied_at(filters@, &final(self).target, k)
                    } else {
                        &&& allowed_before(filters@, &final(self).target, filters@.len() as int)
                        &&& heads_for(r, a)
                        &&& final(self).phase == if a is Domain {
                            Phase::Resolving
                        } else {
                            Phase::Connecting
                        }
                    }
                },
            },
    {
        match Request::from_stream(self.buf.as_slice(), filters) {
            Ok(None) => Step::Read,
            Err(e) => self.fail(e),
            Ok(Some((req, n))) => {
                self.consume(n);
                assert(filters_accept(req.filters@, &req.addr));
                let verdict = req.handle_inner();
                let Request { addr, .. } = req;
                match verdict {
                    Ok(()) => self.head_for(addr),
                    Err(e) => {
                        self.target = addr;
                        self.fail(e)
                    },
                }
            },
        }
    }
    /// Decides the next step from the bytes received so far: the method
    /// negotiation first, then the request header.
    pub fn next_step<F: Fn(&Addr) -> FilterResult>(&mut self, filters: &Vec<F>) -> (r: Step)
        requires
            old(self).phase == Phase::Greeting || old(self).phase == Phase::Request,
            forall|a: Addr| #[trigger] filters_accept(filters@, &a),
        ensures
            old(self).phase == Phase::Greeting ==> match decode_greeting(old(self).buf@) {
                None => r is Read && *final(self) == *old(self),
                Some((ok, n)) => {
                    &&& final(self).buf@ == old(self).buf@.skip(n as int)
                    &&& if ok {
                        final(self).phase == Phase::Request && (r matches Step::Write(w) && w@
                            == auth_reply(true))
                    } else {
                        final(self).phase == Phase::Closed && (r matches Step::Fail(w, e) && w@
                            == auth_reply(false) && e is InvalidAuth)
                    }
                },
            },
            old(self).phase == Phase::Request ==> match decode_request(old(self).buf@) {
                Decoded::Incomplete => r is Read && *final(self) == *old(self),
                Decoded::Failed(k) => {
                    &&& fails_with(r, k)
                    &&& final(self).phase == Phase::Closed
                    &&& final(self).buf == old(self).buf
                },
                Decoded::Done((cmd, a), n) => {
                    &&& final(self).buf@ == old(self).buf@.skip(n as int)
                    &&& final(self).target@ == a
                    &&& if cmd != Cmd::Connect {
                        fails_with(r, ErrorKind::CmdNotSupported) && final(self).phase
                            == Phase::Closed
                    } else if r is Fail {
                        &&& fails_with(r, ErrorKind::BreaksRuleset)
                        &&& final(self).phase == Phase::Closed
                        &&& exists|k: int| first_denied_at(filters@, &final(self).target, k)
                    } else {
                        &&& allowed_before(filters@, &final(self).target, filters@.len() as int)
                        &&& heads_for(r, a)
                        &&& final(self).phase == if a is Domain {
                            Phase::Resolving
                        } else {
                            Phase::Connecting
                        }
                    }
                },
            },
    {
        if self.phase == Phase::Greeting {
            self.greet()
        } else {
            self.on_request(filters)
        }
    }

    /// Takes what the lookup of the destination's domain found, in order,
    /// and connects to the first address, on the requested port. Nothing
    /// found fails the connection as an invalid domain.
    pub fn resolved(&mut self, found: &Vec<IpAddr>) -> (r: Step)
        requires
            old(self).phase == Phase::Resolving,
            old(self).target is Domain,
        ensures
            final(self).buf == old(self).buf,
            found@.len() == 0 ==> fails_with(r, ErrorKind::InvalidDomain) && final(self).phase
                == Phase::Closed,
            found@.len() > 0 ==> {
                &&& final(self).phase == Phase::Connecting
                &&& final(self).target == Addr::Ip(found@[0], old(self).target->Domain_1)
                &&& r == Step::Connect(found@[0], old(self).target->Domain_1)
            },
    {
        let mut target = Addr::Null;
        core::mem::swap(&mut self.target, &mut target);
        match target.resolve_dns(found) {
            Err(e) => self.fail(e),
            Ok(addr) => {
                let (ip, port) = match addr.to_socket_addr() {
                    Ok(endpoint) => endpoint,
                    Err(e) => {
                        return self.fail(e);
                    },
                };
                self.target = addr;
                self.phase = Phase::Connecting;
                Step::Connect(ip, port)
            },
        }
    }

    /// Takes the outcome of the outbound connection: on success, the local
    /// endpoint of the outbound socket, which the success reply reports as
    /// the bound address; on failure, why it failed.
    pub fn connected(&mut self, outcome: Result<(IpAddr, u16), ConnectFailure>) -> (r: Step)
        requires
            old(self).phase == Phase::Connecting,
        ensures
            final(self).buf == old(self).buf,
            final(self).target == old(self).target,
            match outcome {
                Ok((ip, port)) => {
                    &&& final(self).phase == Phase::Relaying
                    &&& r matches Step::Relay(w) && w@ == response_bytes(
                        0x00,
                        Addr::Ip(ip, port)@,
                    )
                },
                Err(f) => fails_with(r, connect_error_kind(f)) && final(self).phase
                    == Phase::Closed,
            },
    {
        match outcome {
            Ok((ip, port)) => {
                let res = Response::from_addr(Addr::from_ip_addr(ip, port));
                self.phase = Phase::Relaying;
                Step::Relay(res.to_bytes())
            },
            Err(f) => self.fail(Error::from_connect_failure(f)),
        }
    }
}

} // verus!
