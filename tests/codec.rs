use socks5::addr::{Addr, IpAddr};
use socks5::{Cmd, Error, ErrorKind, Reply, Response};

fn encode(a: &Addr) -> Vec<u8> {
    let mut out = Vec::new();
    a.to_stream(&mut out);
    out
}

fn round_trip(a: Addr) {
    let mut wire = encode(&a);
    let len = wire.len();
    wire.extend_from_slice(&[0xAA, 0xBB]);
    let (back, n) = Addr::from_stream(&wire).unwrap().unwrap();
    assert_eq!(back, a);
    assert_eq!(n, len);
}

#[test]
fn ipv4_round_trip() {
    round_trip(Addr::from_ipv4_addr([93, 184, 216, 34], 80));
}

#[test]
fn ipv6_round_trip() {
    let mut octets = [0u8; 16];
    for (i, o) in octets.iter_mut().enumerate() {
        *o = (i as u8) * 17;
    }
    round_trip(Addr::from_ipv6_addr(octets, 65535));
}

#[test]
fn domain_round_trip() {
    round_trip(Addr::try_from_domain("webrtc.github.io".to_string(), 443).unwrap());
    round_trip(Addr::try_from_domain("bücher.example".to_string(), 8080).unwrap());
    round_trip(Addr::try_from_domain("a".repeat(253), 1).unwrap());
    round_trip(Addr::try_from_domain(String::new(), 0).unwrap());
}

#[test]
fn ipv4_wire_form() {
    let a = Addr::from_ip_addr(IpAddr::V4([127, 0, 0, 1]), 0x15B3);
    assert_eq!(encode(&a), vec![0x01, 127, 0, 0, 1, 0x15, 0xB3]);
}

#[test]
fn domain_wire_form() {
    let a = Addr::try_from_domain("ab.c".to_string(), 80).unwrap();
    assert_eq!(encode(&a), vec![0x03, 4, b'a', b'b', b'.', b'c', 0x00, 0x50]);
}

#[test]
fn null_wire_form() {
    assert_eq!(encode(&Addr::Null), vec![0x00, 0x00, 0x00]);
}

#[test]
fn long_domain_rejected_at_construction() {
    let r = Addr::try_from_domain("a".repeat(254), 80);
    assert!(matches!(r, Err(Error::InvalidDomain(_))));
    // 127 two-byte characters: 254 bytes.
    let r = Addr::try_from_domain("é".repeat(127), 80);
    assert!(matches!(r, Err(Error::InvalidDomain(_))));
}

#[test]
fn long_domain_rejected_on_the_wire() {
    let mut wire = vec![0x03, 254];
    wire.extend(std::iter::repeat(b'a').take(254));
    wire.extend_from_slice(&[0x00, 0x50]);
    assert!(matches!(Addr::from_stream(&wire), Err(Error::InvalidDomain(_))));
}

#[test]
fn invalid_text_domain_rejected() {
    let wire = vec![0x03, 2, 0xC3, 0x28, 0x00, 0x50];
    assert!(matches!(Addr::from_stream(&wire), Err(Error::InvalidDomain(_))));
}

#[test]
fn unknown_address_type_rejected() {
    for atyp in [0x00u8, 0x02, 0x05, 0xFF] {
        let wire = vec![atyp, 1, 2, 3, 4, 0, 80];
        let r = Addr::from_stream(&wire);
        assert!(matches!(r, Err(Error::AddressTypeNotSupported)));
    }
}

#[test]
fn partial_address_needs_more() {
    let full = encode(&Addr::try_from_domain("example.org".to_string(), 80).unwrap());
    for cut in 0..full.len() {
        assert!(matches!(Addr::from_stream(&full[..cut]), Ok(None)));
    }
    assert!(matches!(Addr::from_stream(&[0x01, 1, 2, 3, 4, 0]), Ok(None)));
    assert!(matches!(Addr::from_stream(&[0x04; 18]), Ok(None)));
}

#[test]
fn resolve_takes_first_address_and_keeps_port() {
    let a = Addr::try_from_domain("example.org".to_string(), 8443).unwrap();
    let found = vec![IpAddr::V4([10, 0, 0, 2]), IpAddr::V4([10, 0, 0, 3])];
    let r = a.resolve_dns(&found).unwrap();
    assert_eq!(r, Addr::Ip(IpAddr::V4([10, 0, 0, 2]), 8443));
}

#[test]
fn resolve_with_no_result_is_invalid_domain() {
    let a = Addr::try_from_domain("nowhere.invalid".to_string(), 80).unwrap();
    assert!(matches!(a.resolve_dns(&Vec::new()), Err(Error::InvalidDomain(_))));
}

#[test]
fn resolve_keeps_ip_addresses() {
    let a = Addr::from_ipv4_addr([1, 2, 3, 4], 5);
    let found = vec![IpAddr::V4([9, 9, 9, 9])];
    assert_eq!(a.clone().resolve_dns(&found).unwrap(), a);
}

#[test]
fn only_ip_addresses_are_socket_addresses() {
    let a = Addr::from_ipv4_addr([1, 2, 3, 4], 5);
    assert_eq!(a.to_socket_addr().unwrap(), (IpAddr::V4([1, 2, 3, 4]), 5));
    let d = Addr::try_from_domain("x.y".to_string(), 5).unwrap();
    assert!(matches!(d.to_socket_addr(), Err(Error::Internal(_))));
    assert!(matches!(Addr::Null.to_socket_addr(), Err(Error::Internal(_))));
}

#[test]
fn command_codes() {
    assert_eq!(Cmd::try_from(0x01).unwrap(), Cmd::Connect);
    assert_eq!(Cmd::try_from(0x02).unwrap(), Cmd::Bind);
    assert_eq!(Cmd::try_from(0x03).unwrap(), Cmd::UdpAssociate);
    for c in [Cmd::Connect, Cmd::Bind, Cmd::UdpAssociate] {
        assert_eq!(Cmd::try_from(c.code()).unwrap(), c);
    }
    assert!(matches!(Cmd::try_from(0x00), Err(Error::CmdNotSupported(_))));
    assert!(matches!(Cmd::try_from(0x04), Err(Error::CmdNotSupported(_))));
}

#[test]
fn command_names() {
    assert_eq!(Cmd::Connect.name(), "Connect");
    assert_eq!(Cmd::Bind.name(), "Bind");
    assert_eq!(Cmd::UdpAssociate.name(), "UDP Associate");
}

#[test]
fn reply_codes() {
    let cases: Vec<(Error, u8)> = vec![
        (Error::Io("broken pipe".to_string()), 0x01),
        (Error::VersionMismatch, 0x01),
        (Error::BreaksRuleset, 0x02),
        (Error::NetworkUnreachable, 0x03),
        (Error::HostUnreachable, 0x04),
        (Error::ConnectionRefused, 0x05),
        (Error::TtlExpired, 0x06),
        (Error::CmdNotSupported(Cmd::Bind), 0x07),
        (Error::AddressTypeNotSupported, 0x08),
        (Error::InvalidAuth, 0xFF),
        (Error::InvalidDomain("x".to_string()), 0x01),
        (Error::Internal("oops"), 0x01),
    ];
    for (e, code) in cases {
        assert_eq!(e.to_u8(), code);
        assert_eq!(Reply::from_error(&e), Reply(code));
    }
    assert_eq!(Error::TtlExpired.kind(), ErrorKind::TtlExpired);
}

#[test]
fn error_response_bytes() {
    let r = Response::from_error(&Error::BreaksRuleset);
    assert_eq!(r.to_bytes(), vec![0x05, 0x02, 0x00, 0x00, 0x00, 0x00]);
}

#[test]
fn success_response_bytes() {
    assert_eq!(Reply::success(), Reply(0x00));
    let r = Response::from_addr(Addr::from_ipv4_addr([192, 168, 1, 7], 40000));
    let mut out = vec![0xEE];
    r.to_stream(&mut out);
    assert_eq!(out, vec![0xEE, 0x05, 0x00, 0x00, 0x01, 192, 168, 1, 7, 0x9C, 0x40]);
}
