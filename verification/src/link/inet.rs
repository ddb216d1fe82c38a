//! The IPv4 part of the per-family data of a link: a nested list of its
//! own kinds.

use crate::constants::{
    IFLA_INET_CONF, IFLA_INET_UNSPEC,
};
use crate::errors::DecodeError;
use crate::nla::{
    DefaultNla, NLA_MAX_VALUE_LEN, Nla, NlaBuffer, Parseable, Record, copy_bytes, first_record,
};
use vstd::prelude::*;
use vstd::slice::slice_to_vec;

verus! {

/// One attribute of the IPv4 part of the per-family data of a link.
#[derive(Debug, PartialEq, Eq, Clone)]
pub enum Inet {
    /// The settings of the device, one 32-bit number each.
    DevConf(Vec<u8>),
    Unspec(Vec<u8>),
    /// A record of a kind that is not in the table, kept as it came.
    Other(DefaultNla),
}

/// What an attribute of the IPv4 part holds, as plain values.
pub enum InetView {
    DevConf(Seq<u8>),
    Unspec(Seq<u8>),
    Other(Record),
}

impl View for Inet {
    type V = InetView;

    open spec fn view(&self) -> InetView {
        match self {
            Inet::DevConf(b) => InetView::DevConf(b@),
            Inet::Unspec(b) => InetView::Unspec(b@),
            Inet::Other(d) => InetView::Other(d@),
        }
    }
}

/// Whether the table has the kind.
pub open spec fn known_kind(kind: u16) -> bool {
    kind <= IFLA_INET_CONF
}

impl InetView {
    /// The kind that the attribute is written under.
    pub open spec fn kind(self) -> u16 {
        match self {
            InetView::DevConf(_) => IFLA_INET_CONF,
            InetView::Unspec(_) => IFLA_INET_UNSPEC,
            InetView::Other(r) => r.kind,
        }
    }

    /// The bytes of the value.
    pub open spec fn value(self) -> Seq<u8> {
        match self {
            InetView::DevConf(b)
            | InetView::Unspec(b) => b,
            InetView::Other(r) => r.value,
        }
    }

    /// Whether the attribute can be written: the length field can hold the
    /// length of its value.
    pub open spec fn emittable(self) -> bool {
        match self {
            _ => self.value().len() <= NLA_MAX_VALUE_LEN,
        }
    }

    /// Whether decoding can give the attribute: `Other` holds no kind that
    /// the table has.
    pub open spec fn canonical(self) -> bool {
        match self {
            InetView::Other(r) => !known_kind(r.kind),
            _ => true,
        }
    }
}

/// What a record decodes to as an attribute of the IPv4 part. Every record
/// decodes, the ones whose kind the table lacks to `Other`.
pub open spec fn decoded(r: Record) -> Result<InetView, DecodeError> {
    match r.kind {
        IFLA_INET_CONF => Ok(InetView::DevConf(r.value)),
        IFLA_INET_UNSPEC => Ok(InetView::Unspec(r.value)),
        _ => Ok(InetView::Other(r)),
    }
}

impl Nla for Inet {
    open spec fn record_of(v: InetView) -> Record {
        Record { kind: v.kind(), value: v.value() }
    }

    open spec fn emittable(v: InetView) -> bool {
        v.emittable()
    }

    proof fn lemma_emittable_fits(v: InetView) {
        lemma_value_width(v);
    }

    fn is_emittable(&self) -> (b: bool) {
        proof {
            lemma_value_width(self@);
        }
        match self {
            Inet::DevConf(b)
            | Inet::Unspec(b) => b.len() <= NLA_MAX_VALUE_LEN,
            Inet::Other(d) => d.is_emittable(),
        }
    }

    fn kind(&self) -> (k: u16) {
        match self {
            Inet::DevConf(_) => IFLA_INET_CONF,
            Inet::Unspec(_) => IFLA_INET_UNSPEC,
            Inet::Other(d) => d.kind(),
        }
    }

    fn value_len(&self) -> (n: usize) {
        proof {
            lemma_value_width(self@);
        }
        match self {
            Inet::DevConf(b)
            | Inet::Unspec(b) => b.len(),
            Inet::Other(d) => d.value_len(),
        }
    }

    fn emit_value(&self, buffer: &mut [u8]) {
        proof {
            lemma_value_width(self@);
        }
        match self {
            Inet::DevConf(b)
            | Inet::Unspec(b) => copy_bytes(buffer, b.as_slice()),
            Inet::Other(d) => d.emit_value(buffer),
        }
    }
}

impl Parseable for Inet {
    open spec fn parse_spec(r: Record) -> Result<InetView, DecodeError> {
        decoded(r)
    }

    fn parse(buf: &NlaBuffer) -> (r: Result<Inet, DecodeError>) {
        assert(Self::parse_spec(first_record(buf@)) == decoded(first_record(buf@)));
        let payload = buf.value();
        Ok(
            match buf.kind() {
                IFLA_INET_CONF => Inet::DevConf(slice_to_vec(payload)),
                IFLA_INET_UNSPEC => Inet::Unspec(slice_to_vec(payload)),
                _ => Inet::Other(DefaultNla::parse(buf)?),
            },
        )
    }
}

/// The value of an attribute that can be written fits the length field:
/// a number takes as many bytes as its type has.
proof fn lemma_value_width(v: InetView)
    ensures
        v.emittable() ==> v.value().len() <= NLA_MAX_VALUE_LEN,
{
}

/// Decoding undoes writing: the record that an attribute is written as
/// decodes to that attribute, for every attribute that can be written and
/// that decoding can give.
pub proof fn lemma_round_trip(v: InetView)
    requires
        v.emittable(),
        v.canonical(),
    ensures
        decoded(<Inet as Nla>::record_of(v)) == Ok::<InetView, DecodeError>(v),
{
    lemma_value_width(v);
}

/// What a record decodes to is an attribute that decoding can give.
pub proof fn lemma_decoded_canonical(r: Record)
    requires
        decoded(r) is Ok,
    ensures
        decoded(r)->Ok_0.canonical(),
{
}

/// A record of a kind that the table lacks never fails to decode: it is
/// kept in `Other` with its kind and its value, and is written as the same
/// record again.
pub proof fn lemma_unknown_kind(r: Record)
    requires
        !known_kind(r.kind),
    ensures
        decoded(r) == Ok::<InetView, DecodeError>(InetView::Other(r)),
        <Inet as Nla>::record_of(InetView::Other(r)) == r,
{
}

} // verus!
