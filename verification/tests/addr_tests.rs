//! Behavioural tests of the protocol-aware address codec.

use std::collections::hash_map::DefaultHasher;
use std::hash::{Hash, Hasher};

use lnp_addr::addr::{AddrParseError, LnpAddr, PartialAddr, Protocol};

const ID: &str = "0279be667ef9dcbbac55a06295ce870b07029bfcdb2dce28d959f2815b16f81798";

fn partial(port: Option<u16>) -> PartialAddr {
    PartialAddr {
        id: ID.to_string(),
        host: "10.0.0.1".to_string(),
        port,
    }
}

fn hash_of(addr: &LnpAddr) -> u64 {
    let mut h = DefaultHasher::new();
    addr.hash(&mut h);
    h.finish()
}

#[test]
fn bolt_fills_default_port() {
    let addr = LnpAddr::bolt(partial(None));
    assert_eq!(addr.protocol, Protocol::Bolt);
    assert_eq!(addr.port(), 9735);
}

#[test]
fn bifrost_fills_default_port() {
    let addr = LnpAddr::bifrost(partial(None));
    assert_eq!(addr.protocol, Protocol::Bifrost);
    assert_eq!(addr.port(), 9999);
}

#[test]
fn explicit_port_is_kept() {
    assert_eq!(LnpAddr::bolt(partial(Some(9000))).port(), 9000);
    assert_eq!(LnpAddr::bifrost(partial(Some(9000))).port(), 9000);
}

#[test]
fn default_port_elided_in_rendering() {
    let base = format!("bolt://{}@10.0.0.1", ID);
    assert_eq!(LnpAddr::bolt(partial(None)).to_canonical_string(), base);
    assert_eq!(LnpAddr::bolt(partial(Some(9735))).to_canonical_string(), base);
    assert_eq!(
        LnpAddr::bolt(partial(Some(9000))).to_canonical_string(),
        format!("{}:9000", base)
    );
}

#[test]
fn parse_without_port_uses_default_and_renders_shortest() {
    let input = format!("bolt://{}@10.0.0.1", ID);
    let addr = LnpAddr::from_str(&input).unwrap();
    assert_eq!(addr.port(), 9735);
    assert_eq!(addr.to_canonical_string(), input);
}

#[test]
fn parse_with_explicit_port_keeps_it() {
    let input = format!("bolt://{}@10.0.0.1:9999", ID);
    let addr = LnpAddr::from_str(&input).unwrap();
    assert_eq!(addr.port(), 9999);
    assert_eq!(addr.to_canonical_string(), input);
}

#[test]
fn roundtrip_nondefault_port() {
    let addr = LnpAddr::bolt(partial(Some(9000)));
    let parsed = LnpAddr::from_str(&addr.to_canonical_string()).unwrap();
    assert_eq!(parsed, addr);
}

#[test]
fn roundtrip_bifrost() {
    let addr = LnpAddr::bifrost(partial(Some(9001)));
    let parsed = LnpAddr::from_str(&addr.to_canonical_string()).unwrap();
    assert_eq!(parsed, addr);
}

#[test]
fn scheme_is_case_insensitive() {
    let lower = LnpAddr::from_str(&format!("bolt://{}@10.0.0.1", ID)).unwrap();
    let upper = LnpAddr::from_str(&format!("BOLT://{}@10.0.0.1", ID)).unwrap();
    let mixed = LnpAddr::from_str(&format!("Bolt://{}@10.0.0.1", ID)).unwrap();
    assert_eq!(lower, upper);
    assert_eq!(lower, mixed);
    let bifrost = LnpAddr::from_str(&format!("BiFrOsT://{}@10.0.0.1", ID)).unwrap();
    assert_eq!(bifrost.protocol, Protocol::Bifrost);
}

#[test]
fn unknown_scheme_is_rejected() {
    assert_eq!(
        LnpAddr::from_str("foo://peer@host"),
        Err(AddrParseError::UnknownProtocol("foo".to_string()))
    );
    assert_eq!(
        LnpAddr::from_str("FOO://peer@host"),
        Err(AddrParseError::UnknownProtocol("foo".to_string()))
    );
}

#[test]
fn missing_separator_is_rejected() {
    assert_eq!(
        LnpAddr::from_str("boltpeer@host"),
        Err(AddrParseError::WrongAddrFormat("boltpeer@host".to_string()))
    );
}

#[test]
fn extra_separator_is_rejected() {
    assert_eq!(
        LnpAddr::from_str("bolt://a://b"),
        Err(AddrParseError::WrongAddrFormat("bolt://a://b".to_string()))
    );
}

#[test]
fn empty_scheme_is_rejected() {
    assert_eq!(
        LnpAddr::from_str("://x"),
        Err(AddrParseError::WrongAddrFormat("://x".to_string()))
    );
}

#[test]
fn invalid_body_error_is_surfaced() {
    let r = LnpAddr::from_str("bolt://nonsense");
    assert!(matches!(r, Err(AddrParseError::InvalidPartialAddr(_))));
}

#[test]
fn parse_extracts_components() {
    let addr = LnpAddr::from_str(&format!("bolt://{}@10.0.0.1:9000", ID)).unwrap();
    assert_eq!(addr.node_addr.id, ID);
    assert_eq!(addr.node_addr.host, "10.0.0.1");
    assert_eq!(addr.node_addr.port, 9000);
}

#[test]
fn parse_normalizes_explicit_default_port() {
    let explicit = LnpAddr::from_str(&format!("bolt://{}@10.0.0.1:9735", ID)).unwrap();
    let implicit = LnpAddr::from_str(&format!("bolt://{}@10.0.0.1", ID)).unwrap();
    assert_eq!(explicit, implicit);
    assert_eq!(
        explicit.to_canonical_string(),
        format!("bolt://{}@10.0.0.1", ID)
    );
}

#[test]
fn equal_values_compare_and_hash_alike() {
    let a = LnpAddr::bolt(partial(Some(9000)));
    let b = LnpAddr::bolt(partial(Some(9000)));
    assert_eq!(a, b);
    assert_eq!(hash_of(&a), hash_of(&b));
}

#[test]
fn protocol_takes_precedence_in_ordering() {
    let bolt = PartialAddr {
        id: "zz".to_string(),
        host: "zz".to_string(),
        port: Some(65535),
    };
    let bifrost = PartialAddr {
        id: "aa".to_string(),
        host: "aa".to_string(),
        port: Some(1),
    };
    let a = LnpAddr::bolt(bolt);
    let b = LnpAddr::bifrost(bifrost);
    assert!(a < b);
    assert!(b > a);
}

#[test]
fn same_protocol_orders_by_address() {
    let a = LnpAddr::bolt(partial(Some(9000)));
    let b = LnpAddr::bolt(partial(Some(9001)));
    assert!(a < b);
    let c = LnpAddr::bolt(PartialAddr {
        id: ID.to_string(),
        host: "10.0.0.2".to_string(),
        port: Some(1),
    });
    assert!(a < c);
}
