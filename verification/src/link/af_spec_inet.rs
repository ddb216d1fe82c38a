//! The per-family data of a link: a nested list with one record for each
//! address family, of which the IPv4 and IPv6 records are nested lists
//! again.

use crate::constants::{
    AF_BRIDGE, AF_INET, AF_INET6, AF_UNIX, AF_UNSPEC,
};
use crate::errors::DecodeError;
use crate::link::inet::{self, Inet, InetView};
use crate::link::inet6::{self, Inet6, Inet6View};
use crate::nla::{
    DefaultNla, NLA_MAX_VALUE_LEN, Nla, NlaBuffer, Parseable, Record, all_emittable,
    buffer_len_all, checked_buffer_len_all, copy_bytes, emit_all, first_record,
    lemma_parse_written, lemma_parsed_from_records, nlas_bytes, parse_all, parse_records,
    parser_of, views,
};
use vstd::prelude::*;
use vstd::slice::slice_to_vec;

verus! {

/// The data of one address family in the per-family data of a link. The kind
/// of the record is the number of the family.
#[derive(Debug, PartialEq, Eq, Clone)]
pub enum AfSpecInet {
    Unspec(Vec<u8>),
    Unix(Vec<u8>),
    /// The IPv4 part: a nested list.
    Inet(Vec<Inet>),
    Bridge(Vec<u8>),
    /// The IPv6 part: a nested list.
    Inet6(Vec<Inet6>),
    /// A record of a kind that is not in the table, kept as it came.
    Other(DefaultNla),
}

/// What the data of one address family holds, as plain values.
pub enum AfSpecInetView {
    Unspec(Seq<u8>),
    Unix(Seq<u8>),
    Inet(Seq<InetView>),
    Bridge(Seq<u8>),
    Inet6(Seq<Inet6View>),
    Other(Record),
}

impl View for AfSpecInet {
    type V = AfSpecInetView;

    open spec fn view(&self) -> AfSpecInetView {
        match self {
            AfSpecInet::Unspec(b) => AfSpecInetView::Unspec(b@),
            AfSpecInet::Unix(b) => AfSpecInetView::Unix(b@),
            AfSpecInet::Inet(l) => AfSpecInetView::Inet(views(l@)),
            AfSpecInet::Bridge(b) => AfSpecInetView::Bridge(b@),
            AfSpecInet::Inet6(l) => AfSpecInetView::Inet6(views(l@)),
            AfSpecInet::Other(d) => AfSpecInetView::Other(d@),
        }
    }
}

/// Whether the table has the kind.
pub open spec fn known_kind(kind: u16) -> bool {
    kind == AF_UNSPEC || kind == AF_UNIX || kind == AF_INET || kind == AF_BRIDGE || kind == AF_INET6
}

impl AfSpecInetView {
    /// The kind that the attribute is written under.
    pub open spec fn kind(self) -> u16 {
        match self {
            AfSpecInetView::Unspec(_) => AF_UNSPEC,
            AfSpecInetView::Unix(_) => AF_UNIX,
            AfSpecInetView::Inet(_) => AF_INET,
            AfSpecInetView::Bridge(_) => AF_BRIDGE,
            AfSpecInetView::Inet6(_) => AF_INET6,
            AfSpecInetView::Other(r) => r.kind,
        }
    }

    /// The bytes of the value.
    pub open spec fn value(self) -> Seq<u8> {
        match self {
            AfSpecInetView::Unspec(b)
            | AfSpecInetView::Unix(b)
            | AfSpecInetView::Bridge(b) => b,
            AfSpecInetView::Inet(l) => nlas_bytes::<Inet>(l),
            AfSpecInetView::Inet6(l) => nlas_bytes::<Inet6>(l),
            AfSpecInetView::Other(r) => r.value,
        }
    }

    /// Whether the attribute can be written: the length field can hold the
    /// length of its value, and each nested attribute can be written.
    pub open spec fn emittable(self) -> bool {
        match self {
            AfSpecInetView::Inet(l) => all_emittable::<Inet>(l) && nlas_bytes::<Inet>(
                l,
            ).len() <= NLA_MAX_VALUE_LEN,
            AfSpecInetView::Inet6(l) => all_emittable::<Inet6>(l) && nlas_bytes::<Inet6>(
                l,
            ).len() <= NLA_MAX_VALUE_LEN,
            _ => self.value().len() <= NLA_MAX_VALUE_LEN,
        }
    }

    /// Whether decoding can give the attribute: it can give each attribute of
    /// a nested list, and `Other` holds no kind that the table has.
    pub open spec fn canonical(self) -> bool {
        match self {
            AfSpecInetView::Inet(l) => forall|i: int|
                0 <= i < l.len() ==> (#[trigger] l[i]).canonical(),
            AfSpecInetView::Inet6(l) => forall|i: int|
                0 <= i < l.len() ==> (#[trigger] l[i]).canonical(),
            AfSpecInetView::Other(r) => !known_kind(r.kind),
            _ => true,
        }
    }
}

/// What a record decodes to as the data of one address family. The data of
/// IPv4 and of IPv6 are nested lists: a failure in one is reported within the
/// family. Every other record decodes, the ones whose kind the table lacks to
/// `Other`.
pub open spec fn decoded(r: Record) -> Result<AfSpecInetView, DecodeError> {
    match r.kind {
        AF_UNSPEC => Ok(AfSpecInetView::Unspec(r.value)),
        AF_UNIX => Ok(AfSpecInetView::Unix(r.value)),
        AF_INET => match parse_records(r.value, parser_of::<Inet>()) {
            Ok(l) => Ok(AfSpecInetView::Inet(l)),
            Err(e) => Err(e.within("AF_INET")),
        },
        AF_BRIDGE => Ok(AfSpecInetView::Bridge(r.value)),
        AF_INET6 => match parse_records(r.value, parser_of::<Inet6>()) {
            Ok(l) => Ok(AfSpecInetView::Inet6(l)),
            Err(e) => Err(e.within("AF_INET6")),
        },
        _ => Ok(AfSpecInetView::Other(r)),
    }
}

impl Nla for AfSpecInet {
    open spec fn record_of(v: AfSpecInetView) -> Record {
        Record { kind: v.kind(), value: v.value() }
    }

    open spec fn emittable(v: AfSpecInetView) -> bool {
        v.emittable()
    }

    proof fn lemma_emittable_fits(v: AfSpecInetView) {
        lemma_value_width(v);
    }

    fn is_emittable(&self) -> (b: bool) {
        proof {
            lemma_value_width(self@);
        }
        match self {
            AfSpecInet::Unspec(b)
            | AfSpecInet::Unix(b)
            | AfSpecInet::Bridge(b) => b.len() <= NLA_MAX_VALUE_LEN,
            AfSpecInet::Inet(l) => checked_buffer_len_all(
                l.as_slice(),
                NLA_MAX_VALUE_LEN,
            ).is_some(),
            AfSpecInet::Inet6(l) => checked_buffer_len_all(
                l.as_slice(),
                NLA_MAX_VALUE_LEN,
            ).is_some(),
            AfSpecInet::Other(d) => d.is_emittable(),
        }
    }

    fn kind(&self) -> (k: u16) {
        match self {
            AfSpecInet::Unspec(_) => AF_UNSPEC,
            AfSpecInet::Unix(_) => AF_UNIX,
            AfSpecInet::Inet(_) => AF_INET,
            AfSpecInet::Bridge(_) => AF_BRIDGE,
            AfSpecInet::Inet6(_) => AF_INET6,
            AfSpecInet::Other(d) => d.kind(),
        }
    }

    fn value_len(&self) -> (n: usize) {
        proof {
            lemma_value_width(self@);
        }
        match self {
            AfSpecInet::Unspec(b)
            | AfSpecInet::Unix(b)
            | AfSpecInet::Bridge(b) => b.len(),
            AfSpecInet::Inet(l) => buffer_len_all(l.as_slice()),
            AfSpecInet::Inet6(l) => buffer_len_all(l.as_slice()),
            AfSpecInet::Other(d) => d.value_len(),
        }
    }

    fn emit_value(&self, buffer: &mut [u8]) {
        proof {
            lemma_value_width(self@);
        }
        match self {
            AfSpecInet::Unspec(b)
            | AfSpecInet::Unix(b)
            | AfSpecInet::Bridge(b) => copy_bytes(buffer, b.as_slice()),
            AfSpecInet::Inet(l) => {
                emit_all(l.as_slice(), buffer);
                assert(buffer@ =~= nlas_bytes::<Inet>(views(l@)));
            },
            AfSpecInet::Inet6(l) => {
                emit_all(l.as_slice(), buffer);
                assert(buffer@ =~= nlas_bytes::<Inet6>(views(l@)));
            },
            AfSpecInet::Other(d) => d.emit_value(buffer),
        }
    }
}

impl Parseable for AfSpecInet {
    open spec fn parse_spec(r: Record) -> Result<AfSpecInetView, DecodeError> {
        decoded(r)
    }

    fn parse(buf: &NlaBuffer) -> (r: Result<AfSpecInet, DecodeError>) {
        assert(Self::parse_spec(first_record(buf@)) == decoded(first_record(buf@)));
        let payload = buf.value();
        Ok(
            match buf.kind() {
                AF_UNSPEC => AfSpecInet::Unspec(slice_to_vec(payload)),
                AF_UNIX => AfSpecInet::Unix(slice_to_vec(payload)),
                AF_INET => match parse_all::<Inet>(payload) {
                    Ok(l) => AfSpecInet::Inet(l),
                    Err(e) => {
                        return Err(e.nested_in("AF_INET"));
                    },
                },
                AF_BRIDGE => AfSpecInet::Bridge(slice_to_vec(payload)),
                AF_INET6 => match parse_all::<Inet6>(payload) {
                    Ok(l) => AfSpecInet::Inet6(l),
                    Err(e) => {
                        return Err(e.nested_in("AF_INET6"));
                    },
                },
                _ => AfSpecInet::Other(DefaultNla::parse(buf)?),
            },
        )
    }
}

/// The value of an attribute that can be written fits the length field:
/// a number takes as many bytes as its type has.
proof fn lemma_value_width(v: AfSpecInetView)
    ensures
        v.emittable() ==> v.value().len() <= NLA_MAX_VALUE_LEN,
{
}

/// Decoding undoes writing: the record that an attribute is written as
/// decodes to that attribute, for every attribute that can be written and
/// that decoding can give.
pub proof fn lemma_round_trip(v: AfSpecInetView)
    requires
        v.emittable(),
        v.canonical(),
    ensures
        decoded(<AfSpecInet as Nla>::record_of(v)) == Ok::<AfSpecInetView, DecodeError>(v),
{
    lemma_value_width(v);
    match v {
        AfSpecInetView::Inet(l) => {
            let f = parser_of::<Inet>();
            assert forall|i: int| 0 <= i < l.len() implies f(
                <Inet as Nla>::record_of(#[trigger] l[i]),
            ) == Ok::<InetView, DecodeError>(l[i]) by {
                inet::lemma_round_trip(l[i]);
            }
            lemma_parse_written::<Inet>(l, f);
        },
        AfSpecInetView::Inet6(l) => {
            let f = parser_of::<Inet6>();
            assert forall|i: int| 0 <= i < l.len() implies f(
                <Inet6 as Nla>::record_of(#[trigger] l[i]),
            ) == Ok::<Inet6View, DecodeError>(l[i]) by {
                inet6::lemma_round_trip(l[i]);
            }
            lemma_parse_written::<Inet6>(l, f);
        },
        _ => {},
    }
}

/// What a record decodes to is an attribute that decoding can give.
pub proof fn lemma_decoded_canonical(r: Record)
    requires
        decoded(r) is Ok,
    ensures
        decoded(r)->Ok_0.canonical(),
{
    match decoded(r)->Ok_0 {
        AfSpecInetView::Inet(l) => {
            let f = parser_of::<Inet>();
            assert forall|i: int| 0 <= i < l.len() implies (#[trigger] l[i]).canonical() by {
                let one = lemma_parsed_from_records(r.value, f, i);
                inet::lemma_decoded_canonical(one);
            }
        },
        AfSpecInetView::Inet6(l) => {
            let f = parser_of::<Inet6>();
            assert forall|i: int| 0 <= i < l.len() implies (#[trigger] l[i]).canonical() by {
                let one = lemma_parsed_from_records(r.value, f, i);
                inet6::lemma_decoded_canonical(one);
            }
        },
        _ => {},
    }
}

/// A record of a kind that the table lacks never fails to decode: it is
/// kept in `Other` with its kind and its value, and is written as the same
/// record again.
pub proof fn lemma_unknown_kind(r: Record)
    requires
        !known_kind(r.kind),
    ensures
        decoded(r) == Ok::<AfSpecInetView, DecodeError>(AfSpecInetView::Other(r)),
        <AfSpecInet as Nla>::record_of(AfSpecInetView::Other(r)) == r,
{
}

} // verus!
