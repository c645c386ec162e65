//! Protocol-aware peer address: a protocol tag paired with a resolved node
//! address, its canonical textual codec, and the default-port table.

use core::cmp::Ordering;
use vstd::prelude::*;

use crate::text::{
    ascii_lowercase, append_dec, dec_digits, find_sep, find_sep_x, lex_cmp, lower_seq,
    lemma_find_sep_from_inv, str_lex_cmp,
};

verus! {

/// Default port of the BOLT protocol.
pub const LNP2P_BOLT_PORT: u16 = 9735;

/// Default port of the Bifrost protocol.
pub const LNP2P_BIFROST_PORT: u16 = 9999;

/// Wire protocol used for talking to a peer.
#[derive(Copy, Clone, PartialEq, Eq, Structural, PartialOrd, Ord, Hash, Debug)]
pub enum Protocol {
    /// Protocol based on BOLT specifications.
    Bolt,
    /// Protocol based on Bifrost specifications.
    Bifrost,
}

impl Protocol {
    /// The protocol's well-known default port.
    pub open spec fn spec_default_port(self) -> u16 {
        match self {
            Protocol::Bolt => LNP2P_BOLT_PORT,
            Protocol::Bifrost => LNP2P_BIFROST_PORT,
        }
    }

    /// Returns the protocol's well-known default port.
    pub fn default_port(self) -> (r: u16)
        ensures
            r == self.spec_default_port(),
    {
        match self {
            Protocol::Bolt => LNP2P_BOLT_PORT,
            Protocol::Bifrost => LNP2P_BIFROST_PORT,
        }
    }

    /// The protocol's lowercase scheme identifier.
    pub open spec fn spec_scheme(self) -> Seq<char> {
        match self {
            Protocol::Bolt => seq!['b', 'o', 'l', 't'],
            Protocol::Bifrost => seq!['b', 'i', 'f', 'r', 'o', 's', 't'],
        }
    }

    /// Returns the protocol's lowercase scheme identifier.
    pub fn scheme_str(self) -> (r: &'static str)
        ensures
            r@ == self.spec_scheme(),
    {
        proof {
            reveal_strlit("bolt");
            reveal_strlit("bifrost");
            assert("bolt"@ =~= Protocol::Bolt.spec_scheme());
            assert("bifrost"@ =~= Protocol::Bifrost.spec_scheme());
        }
        match self {
            Protocol::Bolt => "bolt",
            Protocol::Bifrost => "bifrost",
        }
    }
}

/// Peer identity and host with an optional port, as yielded by the
/// partial-address parser.
#[derive(Clone, Debug)]
pub struct PartialAddr {
    /// Textual form of the peer identity (the node's public key).
    pub id: String,
    /// Textual form of the host.
    pub host: String,
    /// Explicit port, when the address text carried one.
    pub port: Option<u16>,
}

/// Mathematical model of a partial address.
#[verifier::ext_equal]
pub ghost struct PartialAddrV {
    pub id: Seq<char>,
    pub host: Seq<char>,
    pub port: Option<u16>,
}

impl View for PartialAddr {
    type V = PartialAddrV;

    open spec fn view(&self) -> PartialAddrV {
        PartialAddrV { id: self.id@, host: self.host@, port: self.port }
    }
}

/// Peer identity and host with the port always present.
#[derive(Clone, Debug, Eq, Ord, Hash)]
pub struct NodeAddr {
    /// Textual form of the peer identity (the node's public key).
    pub id: String,
    /// Textual form of the host.
    pub host: String,
    /// Port, always present once resolved.
    pub port: u16,
}

/// Mathematical model of a resolved node address.
#[verifier::ext_equal]
pub ghost struct NodeAddrV {
    pub id: Seq<char>,
    pub host: Seq<char>,
    pub port: u16,
}

impl View for NodeAddr {
    type V = NodeAddrV;

    open spec fn view(&self) -> NodeAddrV {
        NodeAddrV { id: self.id@, host: self.host@, port: self.port }
    }
}

/// LNP node address containing both the node address and the used protocol.
/// When parsed from a string or rendered, it may omit port information and
/// use the protocol default port.
#[derive(Clone, Debug, Eq, Ord, Hash)]
pub struct LnpAddr {
    /// Protocol used for connection.
    pub protocol: Protocol,
    /// Remote peer address for connecting to.
    pub node_addr: NodeAddr,
}

/// Mathematical model of a protocol-aware address.
#[verifier::ext_equal]
pub ghost struct LnpAddrV {
    pub protocol: Protocol,
    pub node_addr: NodeAddrV,
}

impl View for LnpAddr {
    type V = LnpAddrV;

    open spec fn view(&self) -> LnpAddrV {
        LnpAddrV { protocol: self.protocol, node_addr: self.node_addr@ }
    }
}

/// Errors raised when parsing a protocol-aware address from a string.
#[derive(Clone, Debug, Eq, Hash)]
pub enum AddrParseError {
    /// The scheme is none of the known protocol identifiers; carries the
    /// lower-cased scheme text.
    UnknownProtocol(String),
    /// The string does not consist of exactly one `://` separator with a
    /// non-empty scheme; carries the whole input.
    WrongAddrFormat(String),
    /// The scheme is known but the address body is not a valid partial
    /// address; carries the body parser's error text.
    InvalidPartialAddr(String),
}

/// Mathematical model of a parse error.
pub ghost enum AddrParseErrorV {
    UnknownProtocol(Seq<char>),
    WrongAddrFormat(Seq<char>),
    InvalidPartialAddr(Seq<char>),
}

impl View for AddrParseError {
    type V = AddrParseErrorV;

    open spec fn view(&self) -> AddrParseErrorV {
        match self {
            AddrParseError::UnknownProtocol(s) => AddrParseErrorV::UnknownProtocol(s@),
            AddrParseError::WrongAddrFormat(s) => AddrParseErrorV::WrongAddrFormat(s@),
            AddrParseError::InvalidPartialAddr(s) => AddrParseErrorV::InvalidPartialAddr(s@),
        }
    }
}

impl PartialAddr {
    /// Converts to a resolved [`NodeAddr`], filling an absent port with the
    /// given default.
    pub fn node_addr(self, default_port: u16) -> (r: NodeAddr)
        ensures
            r@ == spec_node_addr(self@, default_port),
    {
        let port = match self.port {
            Some(p) => p,
            None => default_port,
        };
        NodeAddr { id: self.id, host: self.host, port }
    }
}

/// Resolution of a partial address against a default port: the port is kept
/// when explicit and filled with the default when absent.
pub open spec fn spec_node_addr(a: PartialAddrV, default_port: u16) -> NodeAddrV {
    NodeAddrV {
        id: a.id,
        host: a.host,
        port: match a.port {
            Some(p) => p,
            None => default_port,
        },
    }
}

/// The value built by the factory of protocol `p` from partial address `a`.
pub open spec fn spec_resolve(p: Protocol, a: PartialAddrV) -> LnpAddrV {
    LnpAddrV { protocol: p, node_addr: spec_node_addr(a, p.spec_default_port()) }
}

/// The scheme separator `://` as a character sequence.
pub open spec fn sep_seq() -> Seq<char> {
    seq![':', '/', '/']
}

/// Canonical rendering of an address: `scheme://id@host`, with a `:port`
/// suffix exactly when the port differs from the protocol's default.
pub open spec fn spec_render(v: LnpAddrV) -> Seq<char> {
    let base = v.protocol.spec_scheme() + sep_seq() + v.node_addr.id + seq!['@']
        + v.node_addr.host;
    if v.node_addr.port == v.protocol.spec_default_port() {
        base
    } else {
        base + seq![':'] + dec_digits(v.node_addr.port as nat)
    }
}

impl LnpAddr {
    /// Construct BOLT-compatible node address.
    pub fn bolt(addr: PartialAddr) -> (r: LnpAddr)
        ensures
            r@ == spec_resolve(Protocol::Bolt, addr@),
    {
        LnpAddr { protocol: Protocol::Bolt, node_addr: addr.node_addr(LNP2P_BOLT_PORT) }
    }

    /// Construct Bifrost-compatible node address.
    pub fn bifrost(addr: PartialAddr) -> (r: LnpAddr)
        ensures
            r@ == spec_resolve(Protocol::Bifrost, addr@),
    {
        LnpAddr { protocol: Protocol::Bifrost, node_addr: addr.node_addr(LNP2P_BIFROST_PORT) }
    }

    /// Returns used port address. The port is always present once the value
    /// is constructed: resolution never leaves it absent, and the type makes
    /// a partially-resolved state unrepresentable.
    pub fn port(&self) -> (r: u16)
        ensures
            r == self.node_addr.port,
    {
        self.node_addr.port
    }

    /// Renders the canonical string form, eliding the port when it equals
    /// the protocol's default.
    pub fn to_canonical_string(&self) -> (r: String)
        ensures
            r@ == spec_render(self@),
    {
        proof {
            reveal_strlit("://");
            reveal_strlit("@");
            reveal_strlit(":");
        }
        let mut out = String::new();
        out.append(self.protocol.scheme_str());
        out.append("://");
        out.append(self.id_str());
        out.append("@");
        out.append(self.host_str());
        if self.node_addr.port != self.protocol.default_port() {
            out.append(":");
            append_dec(&mut out, self.node_addr.port);
        }
        proof {
            assert("://"@ =~= sep_seq());
            assert("@"@ =~= seq!['@']);
            assert(":"@ =~= seq![':']);
            assert(out@ =~= spec_render(self@));
        }
        out
    }

    /// The textual form of the peer identity.
    fn id_str(&self) -> (r: &str)
        ensures
            r@ == self.node_addr.id@,
    {
        self.node_addr.id.as_str()
    }

    /// The textual form of the host.
    fn host_str(&self) -> (r: &str)
        ensures
            r@ == self.node_addr.host@,
    {
        self.node_addr.host.as_str()
    }
}

/// Position of a protocol in the fixed ordering of protocols.
pub open spec fn proto_rank(p: Protocol) -> int {
    match p {
        Protocol::Bolt => 0,
        Protocol::Bifrost => 1,
    }
}

/// Three-way ordering of resolved addresses: id text, then host text, then
/// port.
pub open spec fn node_cmp(a: NodeAddrV, b: NodeAddrV) -> Ordering {
    match lex_cmp(a.id, b.id) {
        Ordering::Equal => match lex_cmp(a.host, b.host) {
            Ordering::Equal => if a.port < b.port {
                Ordering::Less
            } else if a.port > b.port {
                Ordering::Greater
            } else {
                Ordering::Equal
            },
            o => o,
        },
        o => o,
    }
}

/// Three-way ordering of protocol-aware addresses: protocol first, then the
/// resolved address.
pub open spec fn lnp_cmp(a: LnpAddrV, b: LnpAddrV) -> Ordering {
    if proto_rank(a.protocol) < proto_rank(b.protocol) {
        Ordering::Less
    } else if proto_rank(a.protocol) > proto_rank(b.protocol) {
        Ordering::Greater
    } else {
        node_cmp(a.node_addr, b.node_addr)
    }
}

impl Protocol {
    /// Returns the protocol's position in the fixed ordering of protocols.
    fn rank(self) -> (r: u8)
        ensures
            r as int == proto_rank(self),
    {
        match self {
            Protocol::Bolt => 0,
            Protocol::Bifrost => 1,
        }
    }
}

impl PartialEq for NodeAddr {
    fn eq(&self, other: &Self) -> (r: bool) {
        self.id == other.id && self.host == other.host && self.port == other.port
    }
}

impl vstd::std_specs::cmp::PartialEqSpecImpl for NodeAddr {
    open spec fn obeys_eq_spec() -> bool {
        true
    }

    open spec fn eq_spec(&self, other: &Self) -> bool {
        self@ == other@
    }
}

impl PartialOrd for NodeAddr {
    fn partial_cmp(&self, other: &Self) -> (r: Option<Ordering>) {
        let c = str_lex_cmp(self.id.as_str(), other.id.as_str());
        match c {
            Ordering::Equal => {
                let c2 = str_lex_cmp(self.host.as_str(), other.host.as_str());
                match c2 {
                    Ordering::Equal => if self.port < other.port {
                        Some(Ordering::Less)
                    } else if self.port > other.port {
                        Some(Ordering::Greater)
                    } else {
                        Some(Ordering::Equal)
                    },
                    _ => Some(c2),
                }
            },
            _ => Some(c),
        }
    }
}

impl vstd::std_specs::cmp::PartialOrdSpecImpl for NodeAddr {
    open spec fn obeys_partial_cmp_spec() -> bool {
        true
    }

    open spec fn partial_cmp_spec(&self, other: &Self) -> Option<Ordering> {
        Some(node_cmp(self@, other@))
    }
}

impl PartialEq for LnpAddr {
    fn eq(&self, other: &Self) -> (r: bool) {
        self.protocol == other.protocol && self.node_addr == other.node_addr
    }
}

impl vstd::std_specs::cmp::PartialEqSpecImpl for LnpAddr {
    open spec fn obeys_eq_spec() -> bool {
        true
    }

    open spec fn eq_spec(&self, other: &Self) -> bool {
        self@ == other@
    }
}

impl PartialOrd for LnpAddr {
    fn partial_cmp(&self, other: &Self) -> (r: Option<Ordering>) {
        let ra = self.protocol.rank();
        let rb = other.protocol.rank();
        if ra < rb {
            Some(Ordering::Less)
        } else if ra > rb {
            Some(Ordering::Greater)
        } else {
            self.node_addr.partial_cmp(&other.node_addr)
        }
    }
}

impl vstd::std_specs::cmp::PartialOrdSpecImpl for LnpAddr {
    open spec fn obeys_partial_cmp_spec() -> bool {
        true
    }

    open spec fn partial_cmp_spec(&self, other: &Self) -> Option<Ordering> {
        Some(lnp_cmp(self@, other@))
    }
}

impl PartialEq for AddrParseError {
    fn eq(&self, other: &Self) -> (r: bool) {
        match (self, other) {
            (AddrParseError::UnknownProtocol(a), AddrParseError::UnknownProtocol(b)) => *a == *b,
            (AddrParseError::WrongAddrFormat(a), AddrParseError::WrongAddrFormat(b)) => *a == *b,
            (
                AddrParseError::InvalidPartialAddr(a),
                AddrParseError::InvalidPartialAddr(b),
            ) => *a == *b,
            _ => false,
        }
    }
}

impl vstd::std_specs::cmp::PartialEqSpecImpl for AddrParseError {
    open spec fn obeys_eq_spec() -> bool {
        true
    }

    open spec fn eq_spec(&self, other: &Self) -> bool {
        self@ == other@
    }
}

/// What the partial-address parser of the `internet2` crate yields on a
/// given body text: the id text, the host text and the explicit port, or
/// else the parser's error text.
pub uninterp spec fn parsed_partial(s: Seq<char>) -> Result<
    (Seq<char>, Seq<char>, Option<u16>),
    Seq<char>,
>;

/// Relies on `internet2::addr::PartialNodeAddr::from_str`, which parses
/// `<node-id>@<host>[:<port>]` from the characters of its input alone, and
/// on the `Display` forms of the node id and the host that the same crate
/// defines.
#[verifier::external_body]
fn parse_partial_str(s: &str) -> (r: Result<PartialAddr, String>)
    ensures
        match r {
            Ok(p) => parsed_partial(s@) == Ok::<(Seq<char>, Seq<char>, Option<u16>), Seq<char>>(
                (p.id@, p.host@, p.port),
            ),
            Err(e) => parsed_partial(s@) == Err::<(Seq<char>, Seq<char>, Option<u16>), Seq<char>>(
                e@,
            ),
        },
{
    match <internet2::addr::PartialNodeAddr as core::str::FromStr>::from_str(s) {
        Ok(p) => Ok(PartialAddr {
            id: p.id.to_string(),
            host: p.addr.address().to_string(),
            port: p.addr.port(),
        }),
        Err(e) => Err(e.to_string()),
    }
}

/// The parse result for a recognized protocol and a body text: the body
/// goes to the partial-address parser, whose error is surfaced; a parsed
/// partial address is resolved by the protocol's factory.
pub open spec fn spec_parse_body(p: Protocol, body: Seq<char>) -> Result<
    LnpAddrV,
    AddrParseErrorV,
> {
    match parsed_partial(body) {
        Ok(t) => Ok(spec_resolve(p, PartialAddrV { id: t.0, host: t.1, port: t.2 })),
        Err(e) => Err(AddrParseErrorV::InvalidPartialAddr(e)),
    }
}

/// The parse result for input `s`: exactly one `://` separator must be
/// present; the scheme before it is matched case-insensitively against the
/// known protocols; the body after it goes to the partial-address parser.
/// A non-empty unknown scheme is reported as such (carrying its lower-cased
/// text); any other shape is a wrong address format (carrying the input).
pub open spec fn spec_parse(s: Seq<char>) -> Result<LnpAddrV, AddrParseErrorV> {
    match find_sep(s) {
        None => Err(AddrParseErrorV::WrongAddrFormat(s)),
        Some(i) => {
            let scheme = s.take(i);
            let body = s.skip(i + 3);
            if find_sep(body) is Some {
                Err(AddrParseErrorV::WrongAddrFormat(s))
            } else if lower_seq(scheme) == Protocol::Bolt.spec_scheme() {
                spec_parse_body(Protocol::Bolt, body)
            } else if lower_seq(scheme) == Protocol::Bifrost.spec_scheme() {
                spec_parse_body(Protocol::Bifrost, body)
            } else if scheme.len() > 0 {
                Err(AddrParseErrorV::UnknownProtocol(lower_seq(scheme)))
            } else {
                Err(AddrParseErrorV::WrongAddrFormat(s))
            }
        },
    }
}

/// View of a parse result.
pub open spec fn parse_result_view(r: Result<LnpAddr, AddrParseError>) -> Result<
    LnpAddrV,
    AddrParseErrorV,
> {
    match r {
        Ok(a) => Ok(a@),
        Err(e) => Err(e@),
    }
}

impl LnpAddr {
    /// Parses `scheme://<node-id>@<host>[:<port>]`, with the outcome that
    /// [`spec_parse`] gives for the input.
    pub fn from_str(s: &str) -> (r: Result<LnpAddr, AddrParseError>)
        ensures
            parse_result_view(r) == spec_parse(s@),
    {
        let n = s.unicode_len();
        match find_sep_x(s) {
            None => Err(AddrParseError::WrongAddrFormat(String::from_str(s))),
            Some(i) => {
                proof {
                    lemma_find_sep_from_inv(s@, 0);
                }
                let scheme = s.substring_char(0, i);
                let body = s.substring_char(i + 3, n);
                proof {
                    assert(scheme@ =~= s@.take(i as int));
                    assert(body@ =~= s@.skip(i + 3 as int));
                }
                if find_sep_x(body).is_some() {
                    return Err(AddrParseError::WrongAddrFormat(String::from_str(s)));
                }
                let low = ascii_lowercase(scheme);
                proof {
                    reveal_strlit("bolt");
                    reveal_strlit("bifrost");
                    assert("bolt"@ =~= Protocol::Bolt.spec_scheme());
                    assert("bifrost"@ =~= Protocol::Bifrost.spec_scheme());
                }
                if low == String::from_str("bolt") {
                    match parse_partial_str(body) {
                        Ok(p) => Ok(LnpAddr::bolt(p)),
                        Err(e) => Err(AddrParseError::InvalidPartialAddr(e)),
                    }
                } else if low == String::from_str("bifrost") {
                    match parse_partial_str(body) {
                        Ok(p) => Ok(LnpAddr::bifrost(p)),
                        Err(e) => Err(AddrParseError::InvalidPartialAddr(e)),
                    }
                } else if !scheme.is_empty() {
                    Err(AddrParseError::UnknownProtocol(low))
                } else {
                    Err(AddrParseError::WrongAddrFormat(String::from_str(s)))
                }
            },
        }
    }
}

} // verus!
