use vstd::prelude::*;
use vstd::utf8::{decode_utf8, encode_utf8, valid_utf8};

use crate::error::{Error, ErrorKind};

verus! {

broadcast use {vstd::utf8::encode_utf8_decode_utf8, vstd::utf8::decode_utf8_encode_utf8};

/// The longest domain name, in bytes, that an address may carry.
pub const MAX_DOMAIN_LEN: usize = 253;

/// An IP address, held as its octets in network order.
#[derive(Debug, Clone, Copy, PartialEq, Eq)]
pub enum IpAddr {
    V4([u8; 4]),
    V6([u8; 16]),
}

/// A network endpoint as it appears in SOCKS5 requests and replies.
#[derive(Debug, Clone, PartialEq, Eq)]
pub enum Addr {
    Ip(IpAddr, u16),
    Domain(String, u16),
    /// No endpoint: used only in error replies.
    Null,
}

/// The mathematical value of an [`Addr`].
pub enum AddrModel {
    V4(Seq<u8>, u16),
    V6(Seq<u8>, u16),
    Domain(Seq<char>, u16),
    Null,
}

impl View for Addr {
    type V = AddrModel;

    open spec fn view(&self) -> AddrModel {
        match self {
            Addr::Ip(IpAddr::V4(o), p) => AddrModel::V4(o@, *p),
            Addr::Ip(IpAddr::V6(o), p) => AddrModel::V6(o@, *p),
            Addr::Domain(n, p) => AddrModel::Domain(n@, *p),
            Addr::Null => AddrModel::Null,
        }
    }
}

/// The outcome of reading a value off the front of a byte sequence: more bytes
/// are needed, the bytes are rejected, or a value was read from the first `n`.
pub enum Decoded<T> {
    Incomplete,
    Failed(ErrorKind),
    Done(T, nat),
}

/// Adds `k` to the number of bytes consumed by a decoding.
pub open spec fn shifted<T>(d: Decoded<T>, k: nat) -> Decoded<T> {
    match d {
        Decoded::Done(v, n) => Decoded::Done(v, n + k),
        Decoded::Incomplete => Decoded::Incomplete,
        Decoded::Failed(e) => Decoded::Failed(e),
    }
}

/// Whether an executable decoding result `r` reports the decoding `d`, with
/// values compared by their views.
pub open spec fn reports<T: View>(r: Result<Option<(T, usize)>, Error>, d: Decoded<T::V>) -> bool {
    match d {
        Decoded::Incomplete => r matches Ok(None),
        Decoded::Failed(k) => match r {
            Err(e) => e.kind() == k,
            _ => false,
        },
        Decoded::Done(v, n) => match r {
            Ok(Some((t, m))) => t@ == v && m as nat == n,
            _ => false,
        },
    }
}

/// The UTF-8 bytes of a domain name.
pub open spec fn domain_bytes(name: Seq<char>) -> Seq<u8> {
    encode_utf8(name)
}

/// A port in network byte order.
pub open spec fn port_bytes(p: u16) -> Seq<u8> {
    seq![(p / 256) as u8, (p % 256) as u8]
}

/// The port written by two bytes in network byte order.
pub open spec fn be16(hi: u8, lo: u8) -> u16 {
    (hi as int * 256 + lo as int) as u16
}

impl AddrModel {
    /// Octet sequences have their family's length and a domain fits the wire.
    pub open spec fn wf(self) -> bool {
        match self {
            AddrModel::V4(o, _) => o.len() == 4,
            AddrModel::V6(o, _) => o.len() == 16,
            AddrModel::Domain(n, _) => domain_bytes(n).len() <= MAX_DOMAIN_LEN,
            AddrModel::Null => true,
        }
    }
}

/// The wire form `ATYP | ADDR | PORT` of an address.
pub open spec fn encode_addr(a: AddrModel) -> Seq<u8> {
    match a {
        AddrModel::V4(o, p) => seq![0x01u8] + o + port_bytes(p),
        AddrModel::V6(o, p) => seq![0x04u8] + o + port_bytes(p),
        AddrModel::Domain(n, p) => seq![0x03u8, domain_bytes(n).len() as u8] + domain_bytes(n)
            + port_bytes(p),
        AddrModel::Null => seq![0x00u8] + port_bytes(0),
    }
}

/// Reads an IPv4 body (four octets and a port).
pub open spec fn decode_v4_body(b: Seq<u8>) -> Decoded<AddrModel> {
    if b.len() < 6 {
        Decoded::Incomplete
    } else {
        Decoded::Done(AddrModel::V4(b.subrange(0, 4), be16(b[4], b[5])), 6)
    }
}

/// Reads an IPv6 body (sixteen octets and a port).
pub open spec fn decode_v6_body(b: Seq<u8>) -> Decoded<AddrModel> {
    if b.len() < 18 {
        Decoded::Incomplete
    } else {
        Decoded::Done(AddrModel::V6(b.subrange(0, 16), be16(b[16], b[17])), 18)
    }
}

/// Reads a domain body (length byte, name, port). The name is rejected as soon
/// as it is all there and is too long or not valid UTF-8.
pub open spec fn decode_domain_body(b: Seq<u8>) -> Decoded<AddrModel> {
    if b.len() < 1 {
        Decoded::Incomplete
    } else {
        let n = b[0] as int;
        if b.len() < 1 + n {
            Decoded::Incomplete
        } else if n > MAX_DOMAIN_LEN || !valid_utf8(b.subrange(1, 1 + n)) {
            Decoded::Failed(ErrorKind::InvalidDomain)
        } else if b.len() < 3 + n {
            Decoded::Incomplete
        } else {
            Decoded::Done(
                AddrModel::Domain(decode_utf8(b.subrange(1, 1 + n)), be16(b[1 + n], b[2 + n])),
                (3 + n) as nat,
            )
        }
    }
}

/// Reads an address `ATYP | ADDR | PORT` off the front of `b`.
pub open spec fn decode_addr(b: Seq<u8>) -> Decoded<AddrModel> {
    if b.len() == 0 {
        Decoded::Incomplete
    } else if b[0] == 0x01 {
        shifted(decode_v4_body(b.drop_first()), 1)
    } else if b[0] == 0x03 {
        shifted(decode_domain_body(b.drop_first()), 1)
    } else if b[0] == 0x04 {
        shifted(decode_v6_body(b.drop_first()), 1)
    } else {
        Decoded::Failed(ErrorKind::AddressTypeNotSupported)
    }
}

fn read_port(hi: u8, lo: u8) -> (r: u16)
    ensures
        r == be16(hi, lo),
{
    hi as u16 * 256 + lo as u16
}

fn push_port(out: &mut Vec<u8>, port: u16)
    ensures
        final(out)@ == old(out)@ + port_bytes(port),
{
    out.push((port / 256) as u8);
    out.push((port % 256) as u8);
    assert(final(out)@ =~= old(out)@ + port_bytes(port));
}

fn push_bytes(out: &mut Vec<u8>, bytes: &[u8])
    ensures
        final(out)@ == old(out)@ + bytes@,
{
    let ghost start = out@;
    let mut i: usize = 0;
    while i < bytes.len()
        invariant
            i <= bytes@.len(),
            out@ == start + bytes@.subrange(0, i as int),
        decreases bytes.len() - i,
    {
        out.push(bytes[i]);
        i = i + 1;
        assert(out@ =~= start + bytes@.subrange(0, i as int));
    }
    assert(bytes@.subrange(0, i as int) =~= bytes@);
}

/// Relies on `String::from_utf8`: it accepts exactly the valid UTF-8 byte
/// sequences, and the string it returns holds those bytes.
#[verifier::external_body]
fn string_from_utf8(bytes: Vec<u8>) -> (r: Option<String>)
    ensures
        r is Some <==> valid_utf8(bytes@),
        r matches Some(s) ==> encode_utf8(s@) == bytes@,
{
    String::from_utf8(bytes).ok()
}

impl Addr {
    /// Whether the address can be written to the wire.
    pub open spec fn wf(&self) -> bool {
        self@.wf()
    }

    pub fn from_ip_addr(ip_addr: IpAddr, port: u16) -> (r: Self)
        ensures
            r == Addr::Ip(ip_addr, port),
    {
        Addr::Ip(ip_addr, port)
    }

    pub fn from_ipv4_addr(ip_addr: [u8; 4], port: u16) -> (r: Self)
        ensures
            r@ == AddrModel::V4(ip_addr@, port),
    {
        Addr::Ip(IpAddr::V4(ip_addr), port)
    }

    pub fn from_ipv6_addr(ip_addr: [u8; 16], port: u16) -> (r: Self)
        ensures
            r@ == AddrModel::V6(ip_addr@, port),
    {
        Addr::Ip(IpAddr::V6(ip_addr), port)
    }

    /// A domain endpoint; the name must be at most 253 bytes long.
    pub fn try_from_domain(domain: String, port: u16) -> (r: Result<Self, Error>)
        ensures
            domain_bytes(domain@).len() <= MAX_DOMAIN_LEN ==> (r matches Ok(a) && a@
                == AddrModel::Domain(domain@, port)),
            domain_bytes(domain@).len() > MAX_DOMAIN_LEN ==> r matches Err(Error::InvalidDomain(_)),
    {
        if domain.as_str().as_bytes().len() > MAX_DOMAIN_LEN {
            return Err(Error::InvalidDomain(domain));
        }
        Ok(Addr::Domain(domain, port))
    }
    /// Reads an address `ATYP | ADDR | PORT` off the front of `input`.
    /// `Ok(None)` means that more bytes are needed.
    pub fn from_stream(input: &[u8]) -> (r: Result<Option<(Self, usize)>, Error>)
        ensures
            reports(r, decode_addr(input@)),
    {
        if input.len() == 0 {
            return Ok(None);
        }
        let body = vstd::slice::slice_subrange(input, 1, input.len());
        assert(body@ =~= input@.drop_first());
        let inner = match input[0] {
            0x01 => Self::ipv4_from_stream(body),
            0x03 => Self::domain_from_stream(body),
            0x04 => Self::ipv6_from_stream(body),
            _ => {
                return Err(Error::AddressTypeNotSupported);
            },
        };
        match inner {
            Ok(Some((a, n))) => Ok(Some((a, n + 1))),
            other => other,
        }
    }

    /// Reads an IPv4 body: four octets and a port.
    pub fn ipv4_from_stream(body: &[u8]) -> (r: Result<Option<(Self, usize)>, Error>)
        ensures
            reports(r, decode_v4_body(body@)),
            r matches Ok(Some((_, n))) ==> n == 6,
    {
        if body.len() < 6 {
            return Ok(None);
        }
        let octets: [u8; 4] = [body[0], body[1], body[2], body[3]];
        assert(octets@ =~= body@.subrange(0, 4));
        let port = read_port(body[4], body[5]);
        Ok(Some((Addr::Ip(IpAddr::V4(octets), port), 6)))
    }

    /// Reads an IPv6 body: sixteen octets and a port.
    pub fn ipv6_from_stream(body: &[u8]) -> (r: Result<Option<(Self, usize)>, Error>)
        ensures
            reports(r, decode_v6_body(body@)),
            r matches Ok(Some((_, n))) ==> n == 18,
    {
        if body.len() < 18 {
            return Ok(None);
        }
        let octets: [u8; 16] = [
            body[0],
            body[1],
            body[2],
            body[3],
            body[4],
            body[5],
            body[6],
            body[7],
            body[8],
            body[9],
            body[10],
            body[11],
            body[12],
            body[13],
            body[14],
            body[15],
        ];
        assert(octets@ =~= body@.subrange(0, 16));
        let port = read_port(body[16], body[17]);
        Ok(Some((Addr::Ip(IpAddr::V6(octets), port), 18)))
    }

    /// Reads a domain body: a length byte, the name, and a port.
    pub fn domain_from_stream(body: &[u8]) -> (r: Result<Option<(Self, usize)>, Error>)
        ensures
            reports(r, decode_domain_body(body@)),
            r matches Ok(Some((_, n))) ==> n <= 256,
    {
        if body.len() < 1 {
            return Ok(None);
        }
        let n = body[0] as usize;
        if body.len() < 1 + n {
            return Ok(None);
        }
        let name = vstd::slice::slice_to_vec(vstd::slice::slice_subrange(body, 1, 1 + n));
        assert(name@ =~= body@.subrange(1, 1 + n as int));
        let domain = match string_from_utf8(name) {
            Some(d) => d,
            None => {
                return Err(Error::InvalidDomain("<invalid-utf8>".to_owned()));
            },
        };
        if n > MAX_DOMAIN_LEN {
            return Err(Error::InvalidDomain(domain));
        }
        if body.len() < 3 + n {
            return Ok(None);
        }
        let port = read_port(body[1 + n], body[2 + n]);
        Ok(Some((Addr::Domain(domain, port), 3 + n)))
    }

    /// Appends the wire form `ATYP | ADDR | PORT` of this address to `out`.
    pub fn to_stream(&self, out: &mut Vec<u8>)
        requires
            self.wf(),
        ensures
            final(out)@ == old(out)@ + encode_addr(self@),
    {
        let ghost start = out@;
        match self {
            Addr::Ip(IpAddr::V4(v4), port) => {
                out.push(0x01);
                push_bytes(out, v4.as_slice());
                push_port(out, *port);
            },
            Addr::Domain(domain, port) => {
                let bytes = domain.as_str().as_bytes();
                out.push(0x03);
                out.push(bytes.len() as u8);
                push_bytes(out, bytes);
                push_port(out, *port);
            },
            Addr::Ip(IpAddr::V6(v6), port) => {
                out.push(0x04);
                push_bytes(out, v6.as_slice());
                push_port(out, *port);
            },
            Addr::Null => {
                out.push(0x00);
                push_port(out, 0);
            },
        }
        assert(out@ =~= start + encode_addr(self@));
    }

    /// Replaces a domain by the first address that its lookup found, keeping
    /// the port. `found` holds what the lookup returned, in its order; other
    /// addresses are returned unchanged.
    pub fn resolve_dns(self, found: &Vec<IpAddr>) -> (r: Result<Self, Error>)
        ensures
            match self {
                Addr::Domain(_, port) => if found@.len() == 0 {
                    r matches Err(Error::InvalidDomain(_))
                } else {
                    r == Ok::<Addr, Error>(Addr::Ip(found@[0], port))
                },
                _ => r == Ok::<Addr, Error>(self),
            },
    {
        match self {
            Addr::Domain(domain, port) => {
                if found.len() == 0 {
                    return Err(Error::InvalidDomain(domain));
                }
                Ok(Addr::Ip(found[0], port))
            },
            _ => Ok(self),
        }
    }

    /// The concrete endpoint of an IP address. A domain must be resolved
    /// first, and a null address has none.
    pub fn to_socket_addr(&self) -> (r: Result<(IpAddr, u16), Error>)
        ensures
            match self {
                Addr::Ip(ip, port) => r == Ok::<(IpAddr, u16), Error>((*ip, *port)),
                _ => r matches Err(Error::Internal(_)),
            },
    {
        match self {
            Addr::Ip(ip, port) => Ok((*ip, *port)),
            Addr::Domain(_, _) => Err(
                Error::Internal(
                    "tried to convert a domain address to a socket address; resolve it first",
                ),
            ),
            Addr::Null => Err(Error::Internal("tried to convert a null address to a socket address")),
        }
    }
}

/// Reading the wire form of a well-formed IPv4, IPv6 or domain address back,
/// whatever bytes follow it, gives the same address and consumes exactly its
/// wire form.
pub proof fn lemma_addr_round_trip(a: AddrModel, rest: Seq<u8>)
    requires
        a.wf(),
        !(a is Null),
    ensures
        decode_addr(encode_addr(a) + rest) == Decoded::Done(a, encode_addr(a).len()),
{
    broadcast use vstd::utf8::encode_utf8_valid_utf8;

    let b = encode_addr(a) + rest;
    match a {
        AddrModel::V4(o, p) => {
            assert(b.drop_first().subrange(0, 4) =~= o);
            assert(be16((p / 256) as u8, (p % 256) as u8) == p);
        },
        AddrModel::V6(o, p) => {
            assert(b.drop_first().subrange(0, 16) =~= o);
            assert(be16((p / 256) as u8, (p % 256) as u8) == p);
        },
        AddrModel::Domain(name, p) => {
            let d = domain_bytes(name);
            let k = d.len() as int;
            let body = b.drop_first();
            assert(body[0] as int == d.len());
            assert(body.subrange(1, 1 + k) =~= d);
            assert(body[1 + k] == (p / 256) as u8);
            assert(body[2 + k] == (p % 256) as u8);
            assert(be16((p / 256) as u8, (p % 256) as u8) == p);
        },
        AddrModel::Null => {},
    }
}

/// A domain name longer than 253 bytes (and short enough to be framed by the
/// one-byte length) is rejected as an invalid domain when read from the wire.
pub proof fn lemma_long_domain_rejected(name: Seq<char>, port: u16, rest: Seq<u8>)
    requires
        MAX_DOMAIN_LEN < domain_bytes(name).len() <= 255,
    ensures
        decode_addr(encode_addr(AddrModel::Domain(name, port)) + rest) == Decoded::<AddrModel>::Failed(
            ErrorKind::InvalidDomain,
        ),
{
    let d = domain_bytes(name);
    let body = (encode_addr(AddrModel::Domain(name, port)) + rest).drop_first();
    assert(body[0] as int == d.len());
}

} // verus!
