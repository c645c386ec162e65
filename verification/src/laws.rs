//! Laws of the address codec: how rendering, parsing, resolution and
//! ordering relate to one another.

use core::cmp::Ordering;
use vstd::prelude::*;

use crate::addr::{
    lnp_cmp, node_cmp, parsed_partial, proto_rank, sep_seq, spec_parse, spec_parse_body,
    spec_render, spec_resolve, AddrParseErrorV, LnpAddrV, PartialAddrV, Protocol,
};
use crate::text::{
    dec_digits, find_sep, lemma_find_sep_from_inv, lemma_find_sep_from_none,
    lemma_find_sep_from_some, lemma_lex_cmp_refl, lower_seq, sep_at,
};

verus! {

/// A protocol's scheme identifier holds no `://` separator.
pub proof fn lemma_scheme_no_sep(p: Protocol)
    ensures
        find_sep(p.spec_scheme()) is None,
{
    let s = p.spec_scheme();
    assert forall|j: int| 0 <= j implies !sep_at(s, j) by {
        if j + 3 <= s.len() {
            assert(s[j] != ':');
        }
    }
    lemma_find_sep_from_none(s, 0);
}

/// A protocol's scheme identifier is already lower-case.
pub proof fn lemma_scheme_lower(p: Protocol)
    ensures
        lower_seq(p.spec_scheme()) == p.spec_scheme(),
{
    let s = p.spec_scheme();
    assert(lower_seq(s) =~= s);
}

/// Splitting a string of the shape `scheme ++ :// ++ body`: when the scheme
/// holds no separator of its own, the first separator stands right after
/// the scheme, and what is around it is recovered exactly.
pub proof fn lemma_split_at_scheme(scheme: Seq<char>, body: Seq<char>)
    requires
        find_sep(scheme) is None,
    ensures
        find_sep(scheme + sep_seq() + body) == Some(scheme.len() as int),
        (scheme + sep_seq() + body).take(scheme.len() as int) == scheme,
        (scheme + sep_seq() + body).skip(scheme.len() as int + 3) == body,
{
    let full = scheme + sep_seq() + body;
    let len = scheme.len() as int;
    lemma_find_sep_from_inv(scheme, 0);
    assert(full[len] == ':' && full[len + 1] == '/' && full[len + 2] == '/');
    assert(sep_at(full, len));
    assert forall|j: int| 0 <= j < len implies !sep_at(full, j) by {
        if j + 3 <= len {
            assert(!sep_at(scheme, j));
            assert(full[j] == scheme[j]);
            assert(full[j + 1] == scheme[j + 1]);
            assert(full[j + 2] == scheme[j + 2]);
        } else if j == len - 2 {
            assert(full[j + 2] == ':');
        } else {
            assert(j == len - 1);
            assert(full[j + 1] == ':');
        }
    }
    lemma_find_sep_from_some(full, 0, len);
    assert(full.take(len) =~= scheme);
    assert(full.skip(len + 3) =~= body);
}

/// Round-trip: a value built by a protocol factory from a partial address
/// with an explicit non-default port parses back, unchanged, from its
/// canonical rendering — provided the rendered body holds no `://` of its
/// own and the partial-address parser recovers the body's components.
pub proof fn lemma_round_trip(p: Protocol, id: Seq<char>, host: Seq<char>, port: u16)
    requires
        port != p.spec_default_port(),
        find_sep(id + seq!['@'] + host + seq![':'] + dec_digits(port as nat)) is None,
        parsed_partial(id + seq!['@'] + host + seq![':'] + dec_digits(port as nat))
            == Ok::<(Seq<char>, Seq<char>, Option<u16>), Seq<char>>((id, host, Some(port))),
    ensures
        spec_parse(spec_render(spec_resolve(p, PartialAddrV { id, host, port: Some(port) })))
            == Ok::<LnpAddrV, AddrParseErrorV>(
            spec_resolve(p, PartialAddrV { id, host, port: Some(port) }),
        ),
{
    let a = PartialAddrV { id, host, port: Some(port) };
    let v = spec_resolve(p, a);
    let scheme = p.spec_scheme();
    let body = id + seq!['@'] + host + seq![':'] + dec_digits(port as nat);
    assert(spec_render(v) =~= scheme + sep_seq() + body);
    lemma_scheme_no_sep(p);
    lemma_split_at_scheme(scheme, body);
    lemma_scheme_lower(p);
    assert(Protocol::Bolt.spec_scheme().len() == 4);
    assert(Protocol::Bifrost.spec_scheme().len() == 7);
    assert(spec_parse(spec_render(v)) == spec_parse_body(p, body));
    assert(spec_parse_body(p, body) == Ok::<LnpAddrV, AddrParseErrorV>(spec_resolve(p, a)));
}

/// Round-trip of the shortest form: a value resolved to the protocol's
/// default port parses back, unchanged, from its canonical rendering, which
/// elides the port — provided the rendered body holds no `://` of its own
/// and the partial-address parser recovers the body's components.
pub proof fn lemma_round_trip_default(p: Protocol, id: Seq<char>, host: Seq<char>)
    requires
        find_sep(id + seq!['@'] + host) is None,
        parsed_partial(id + seq!['@'] + host) == Ok::<
            (Seq<char>, Seq<char>, Option<u16>),
            Seq<char>,
        >((id, host, None)),
    ensures
        spec_parse(spec_render(spec_resolve(p, PartialAddrV { id, host, port: None })))
            == Ok::<LnpAddrV, AddrParseErrorV>(
            spec_resolve(p, PartialAddrV { id, host, port: None }),
        ),
{
    let a = PartialAddrV { id, host, port: None };
    let v = spec_resolve(p, a);
    let scheme = p.spec_scheme();
    let body = id + seq!['@'] + host;
    assert(spec_render(v) =~= scheme + sep_seq() + body);
    lemma_scheme_no_sep(p);
    lemma_split_at_scheme(scheme, body);
    lemma_scheme_lower(p);
    assert(Protocol::Bolt.spec_scheme().len() == 4);
    assert(Protocol::Bifrost.spec_scheme().len() == 7);
    assert(spec_parse(spec_render(v)) == spec_parse_body(p, body));
    assert(spec_parse_body(p, body) == Ok::<LnpAddrV, AddrParseErrorV>(spec_resolve(p, a)));
}

/// Default-port elision: resolving a partial address whose port is absent
/// or equals the protocol's default renders with no `:port` suffix, in the
/// shortest form; any other explicit port renders with `:` and exactly that
/// port's decimal digits.
pub proof fn lemma_default_port_elision(p: Protocol, a: PartialAddrV)
    ensures
        (a.port is None || a.port == Some(p.spec_default_port())) ==> spec_render(
            spec_resolve(p, a),
        ) == p.spec_scheme() + sep_seq() + a.id + seq!['@'] + a.host,
        forall|q: u16|
            a.port == Some(q) && q != p.spec_default_port() ==> spec_render(spec_resolve(p, a))
                == p.spec_scheme() + sep_seq() + a.id + seq!['@'] + a.host + seq![':']
                + dec_digits(q as nat),
{
}

/// Normalization: with the default port written explicitly or left out, the
/// factory builds the same value, so both render identically.
pub proof fn lemma_default_port_normal_form(p: Protocol, id: Seq<char>, host: Seq<char>)
    ensures
        spec_resolve(p, PartialAddrV { id, host, port: Some(p.spec_default_port()) })
            == spec_resolve(p, PartialAddrV { id, host, port: None }),
{
    assert(spec_resolve(p, PartialAddrV { id, host, port: Some(p.spec_default_port()) })
        =~= spec_resolve(p, PartialAddrV { id, host, port: None }));
}

/// Case-insensitive scheme: two inputs whose schemes agree up to ASCII case
/// and that share one body parse alike, whenever one of them parses
/// successfully.
pub proof fn lemma_scheme_case_insensitive(s1: Seq<char>, s2: Seq<char>, body: Seq<char>)
    requires
        lower_seq(s1) == lower_seq(s2),
        find_sep(s1) is None,
        find_sep(s2) is None,
        spec_parse(s1 + sep_seq() + body) is Ok,
    ensures
        spec_parse(s2 + sep_seq() + body) == spec_parse(s1 + sep_seq() + body),
{
    lemma_split_at_scheme(s1, body);
    lemma_split_at_scheme(s2, body);
}

/// Equality: two values with equal protocol and equal resolved address are
/// equal, and compare as equal.
pub proof fn lemma_eq_same_fields(a: LnpAddrV, b: LnpAddrV)
    requires
        a.protocol == b.protocol,
        a.node_addr == b.node_addr,
    ensures
        a == b,
        lnp_cmp(a, b) == Ordering::Equal,
{
    assert(a =~= b);
    lemma_lex_cmp_refl(a.node_addr.id);
    lemma_lex_cmp_refl(a.node_addr.host);
}

/// Ordering: protocol comparison takes precedence — values whose protocols
/// differ are ordered by the protocols alone, whatever their addresses.
pub proof fn lemma_protocol_precedence(a: LnpAddrV, b: LnpAddrV)
    requires
        a.protocol != b.protocol,
    ensures
        proto_rank(a.protocol) < proto_rank(b.protocol) ==> lnp_cmp(a, b) == Ordering::Less,
        proto_rank(a.protocol) > proto_rank(b.protocol) ==> lnp_cmp(a, b) == Ordering::Greater,
        lnp_cmp(a, b) != Ordering::Equal,
{
}

/// Ordering: values with equal protocols are ordered by their resolved
/// addresses alone.
pub proof fn lemma_same_protocol_order(a: LnpAddrV, b: LnpAddrV)
    requires
        a.protocol == b.protocol,
    ensures
        lnp_cmp(a, b) == node_cmp(a.node_addr, b.node_addr),
{
}

} // verus!
