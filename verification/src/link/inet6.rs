//! The IPv6 part of the per-family data of a link: a nested list of its
//! own kinds.

use crate::byte_order::{
    lemma_u32_round_trip, native_u32_bytes, write_u32,
};
use crate::constants::{
    IFLA_INET6_ADDR_GEN_MODE, IFLA_INET6_CACHEINFO, IFLA_INET6_CONF, IFLA_INET6_FLAGS,
    IFLA_INET6_ICMP6STATS, IFLA_INET6_MCAST, IFLA_INET6_STATS, IFLA_INET6_TOKEN, IFLA_INET6_UNSPEC,
};
use crate::errors::DecodeError;
use crate::nla::{
    DefaultNla, NLA_MAX_VALUE_LEN, Nla, NlaBuffer, Parseable, Record, copy_bytes, first_record,
};
use crate::parsers::{
    parse_u32, parse_u8, u32_value, u8_value,
};
use vstd::prelude::*;
use vstd::slice::slice_to_vec;

verus! {

/// One attribute of the IPv6 part of the per-family data of a link.
#[derive(Debug, PartialEq, Eq, Clone)]
pub enum Inet6 {
    Flags(u32),
    CacheInfo(Vec<u8>),
    /// The settings of the device, one 32-bit number each.
    DevConf(Vec<u8>),
    Unspec(Vec<u8>),
    Stats(Vec<u8>),
    IcmpStats(Vec<u8>),
    /// The token that interface identifiers are made from.
    Token(Vec<u8>),
    AddrGenMode(u8),
    /// A record of a kind that is not in the table, kept as it came.
    Other(DefaultNla),
}

/// What an attribute of the IPv6 part holds, as plain values.
pub enum Inet6View {
    Flags(u32),
    CacheInfo(Seq<u8>),
    DevConf(Seq<u8>),
    Unspec(Seq<u8>),
    Stats(Seq<u8>),
    IcmpStats(Seq<u8>),
    Token(Seq<u8>),
    AddrGenMode(u8),
    Other(Record),
}

impl View for Inet6 {
    type V = Inet6View;

    open spec fn view(&self) -> Inet6View {
        match self {
            Inet6::Flags(x) => Inet6View::Flags(*x),
            Inet6::CacheInfo(b) => Inet6View::CacheInfo(b@),
            Inet6::DevConf(b) => Inet6View::DevConf(b@),
            Inet6::Unspec(b) => Inet6View::Unspec(b@),
            Inet6::Stats(b) => Inet6View::Stats(b@),
            Inet6::IcmpStats(b) => Inet6View::IcmpStats(b@),
            Inet6::Token(b) => Inet6View::Token(b@),
            Inet6::AddrGenMode(x) => Inet6View::AddrGenMode(*x),
            Inet6::Other(d) => Inet6View::Other(d@),
        }
    }
}

/// Whether the table has the kind.
pub open spec fn known_kind(kind: u16) -> bool {
    kind <= IFLA_INET6_ADDR_GEN_MODE && kind != IFLA_INET6_MCAST
}

impl Inet6View {
    /// The kind that the attribute is written under.
    pub open spec fn kind(self) -> u16 {
        match self {
            Inet6View::Flags(_) => IFLA_INET6_FLAGS,
            Inet6View::CacheInfo(_) => IFLA_INET6_CACHEINFO,
            Inet6View::DevConf(_) => IFLA_INET6_CONF,
            Inet6View::Unspec(_) => IFLA_INET6_UNSPEC,
            Inet6View::Stats(_) => IFLA_INET6_STATS,
            Inet6View::IcmpStats(_) => IFLA_INET6_ICMP6STATS,
            Inet6View::Token(_) => IFLA_INET6_TOKEN,
            Inet6View::AddrGenMode(_) => IFLA_INET6_ADDR_GEN_MODE,
            Inet6View::Other(r) => r.kind,
        }
    }

    /// The bytes of the value.
    pub open spec fn value(self) -> Seq<u8> {
        match self {
            Inet6View::CacheInfo(b)
            | Inet6View::DevConf(b)
            | Inet6View::Unspec(b)
            | Inet6View::Stats(b)
            | Inet6View::IcmpStats(b)
            | Inet6View::Token(b) => b,
            Inet6View::AddrGenMode(x) => seq![x],
            Inet6View::Flags(x) => native_u32_bytes(x),
            Inet6View::Other(r) => r.value,
        }
    }

    /// Whether the attribute can be written: the length field can hold the
    /// length of its value.
    pub open spec fn emittable(self) -> bool {
        match self {
            _ => self.value().len() <= NLA_MAX_VALUE_LEN,
        }
    }

    /// Whether decoding can give the attribute: `Other` holds no kind that
    /// the table has.
    pub open spec fn canonical(self) -> bool {
        match self {
            Inet6View::Other(r) => !known_kind(r.kind),
            _ => true,
        }
    }
}

/// What a record decodes to as an attribute of the IPv6 part. A kind with a
/// number fails as `Malformed` on a value of another width. Every other
/// record decodes, the ones whose kind the table lacks to `Other`.
pub open spec fn decoded(r: Record) -> Result<Inet6View, DecodeError> {
    match r.kind {
        IFLA_INET6_FLAGS => match u32_value(r.value, "IFLA_INET6_FLAGS") {
            Ok(x) => Ok(Inet6View::Flags(x)),
            Err(e) => Err(e),
        },
        IFLA_INET6_CACHEINFO => Ok(Inet6View::CacheInfo(r.value)),
        IFLA_INET6_CONF => Ok(Inet6View::DevConf(r.value)),
        IFLA_INET6_UNSPEC => Ok(Inet6View::Unspec(r.value)),
        IFLA_INET6_STATS => Ok(Inet6View::Stats(r.value)),
        IFLA_INET6_ICMP6STATS => Ok(Inet6View::IcmpStats(r.value)),
        IFLA_INET6_TOKEN => Ok(Inet6View::Token(r.value)),
        IFLA_INET6_ADDR_GEN_MODE => match u8_value(r.value, "IFLA_INET6_ADDR_GEN_MODE") {
            Ok(x) => Ok(Inet6View::AddrGenMode(x)),
            Err(e) => Err(e),
        },
        _ => Ok(Inet6View::Other(r)),
    }
}

impl Nla for Inet6 {
    open spec fn record_of(v: Inet6View) -> Record {
        Record { kind: v.kind(), value: v.value() }
    }

    open spec fn emittable(v: Inet6View) -> bool {
        v.emittable()
    }

    proof fn lemma_emittable_fits(v: Inet6View) {
        lemma_value_width(v);
    }

    fn is_emittable(&self) -> (b: bool) {
        proof {
            lemma_value_width(self@);
        }
        match self {
            Inet6::CacheInfo(b)
            | Inet6::DevConf(b)
            | Inet6::Unspec(b)
            | Inet6::Stats(b)
            | Inet6::IcmpStats(b)
            | Inet6::Token(b) => b.len() <= NLA_MAX_VALUE_LEN,
            Inet6::Other(d) => d.is_emittable(),
            _ => true,
        }
    }

    fn kind(&self) -> (k: u16) {
        match self {
            Inet6::Flags(_) => IFLA_INET6_FLAGS,
            Inet6::CacheInfo(_) => IFLA_INET6_CACHEINFO,
            Inet6::DevConf(_) => IFLA_INET6_CONF,
            Inet6::Unspec(_) => IFLA_INET6_UNSPEC,
            Inet6::Stats(_) => IFLA_INET6_STATS,
            Inet6::IcmpStats(_) => IFLA_INET6_ICMP6STATS,
            Inet6::Token(_) => IFLA_INET6_TOKEN,
            Inet6::AddrGenMode(_) => IFLA_INET6_ADDR_GEN_MODE,
            Inet6::Other(d) => d.kind(),
        }
    }

    fn value_len(&self) -> (n: usize) {
        proof {
            lemma_value_width(self@);
        }
        match self {
            Inet6::CacheInfo(b)
            | Inet6::DevConf(b)
            | Inet6::Unspec(b)
            | Inet6::Stats(b)
            | Inet6::IcmpStats(b)
            | Inet6::Token(b) => b.len(),
            Inet6::AddrGenMode(_) => 1,
            Inet6::Flags(_) => 4,
            Inet6::Other(d) => d.value_len(),
        }
    }

    fn emit_value(&self, buffer: &mut [u8]) {
        proof {
            lemma_value_width(self@);
        }
        match self {
            Inet6::CacheInfo(b)
            | Inet6::DevConf(b)
            | Inet6::Unspec(b)
            | Inet6::Stats(b)
            | Inet6::IcmpStats(b)
            | Inet6::Token(b) => copy_bytes(buffer, b.as_slice()),
            Inet6::AddrGenMode(x) => {
                buffer[0] = *x;
                assert(buffer@ =~= seq![*x]);
            },
            Inet6::Flags(x) => {
                write_u32(buffer, *x);
                assert(buffer@ =~= native_u32_bytes(*x));
            },
            Inet6::Other(d) => d.emit_value(buffer),
        }
    }
}

impl Parseable for Inet6 {
    open spec fn parse_spec(r: Record) -> Result<Inet6View, DecodeError> {
        decoded(r)
    }

    fn parse(buf: &NlaBuffer) -> (r: Result<Inet6, DecodeError>) {
        assert(Self::parse_spec(first_record(buf@)) == decoded(first_record(buf@)));
        let payload = buf.value();
        Ok(
            match buf.kind() {
                IFLA_INET6_FLAGS => Inet6::Flags(parse_u32(payload, "IFLA_INET6_FLAGS")?),
                IFLA_INET6_CACHEINFO => Inet6::CacheInfo(slice_to_vec(payload)),
                IFLA_INET6_CONF => Inet6::DevConf(slice_to_vec(payload)),
                IFLA_INET6_UNSPEC => Inet6::Unspec(slice_to_vec(payload)),
                IFLA_INET6_STATS => Inet6::Stats(slice_to_vec(payload)),
                IFLA_INET6_ICMP6STATS => Inet6::IcmpStats(slice_to_vec(payload)),
                IFLA_INET6_TOKEN => Inet6::Token(slice_to_vec(payload)),
                IFLA_INET6_ADDR_GEN_MODE => {
                    Inet6::AddrGenMode(parse_u8(payload, "IFLA_INET6_ADDR_GEN_MODE")?)
                },
                _ => Inet6::Other(DefaultNla::parse(buf)?),
            },
        )
    }
}

/// The value of an attribute that can be written fits the length field:
/// a number takes as many bytes as its type has.
proof fn lemma_value_width(v: Inet6View)
    ensures
        v is AddrGenMode ==> v.value().len() == 1,
        v is Flags ==> v.value().len() == 4,
        v.emittable() ==> v.value().len() <= NLA_MAX_VALUE_LEN,
{
    match v {
        Inet6View::Flags(x) => lemma_u32_round_trip(x, Seq::empty()),
        _ => {},
    }
}

/// Decoding undoes writing: the record that an attribute is written as
/// decodes to that attribute, for every attribute that can be written and
/// that decoding can give.
pub proof fn lemma_round_trip(v: Inet6View)
    requires
        v.emittable(),
        v.canonical(),
    ensures
        decoded(<Inet6 as Nla>::record_of(v)) == Ok::<Inet6View, DecodeError>(v),
{
    lemma_value_width(v);
    match v {
        Inet6View::Flags(x) => lemma_u32_round_trip(x, Seq::empty()),
        _ => {},
    }
}

/// What a record decodes to is an attribute that decoding can give.
pub proof fn lemma_decoded_canonical(r: Record)
    requires
        decoded(r) is Ok,
    ensures
        decoded(r)->Ok_0.canonical(),
{
}

/// A record of a kind that the table lacks never fails to decode: it is
/// kept in `Other` with its kind and its value, and is written as the same
/// record again.
pub proof fn lemma_unknown_kind(r: Record)
    requires
        !known_kind(r.kind),
    ensures
        decoded(r) == Ok::<Inet6View, DecodeError>(Inet6View::Other(r)),
        <Inet6 as Nla>::record_of(Inet6View::Other(r)) == r,
{
}

} // verus!
