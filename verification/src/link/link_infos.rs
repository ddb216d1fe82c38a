//! The description of the type of a link: a nested list of its own kinds.

use crate::constants::{
    IFLA_INFO_DATA, IFLA_INFO_KIND, IFLA_INFO_SLAVE_DATA, IFLA_INFO_SLAVE_KIND, IFLA_INFO_UNSPEC,
    IFLA_INFO_XSTATS,
};
use crate::errors::DecodeError;
use crate::nla::{
    DefaultNla, NLA_MAX_VALUE_LEN, Nla, NlaBuffer, Parseable, Record, copy_bytes, first_record,
};
use crate::parsers::{
    lemma_text_round_trip, parse_string, text_bytes, text_value,
};
use vstd::prelude::*;
use vstd::slice::slice_to_vec;
use vstd::utf8::encode_utf8;

verus! {

/// One attribute of the description of the type of a link.
#[derive(Debug, PartialEq, Eq, Clone)]
pub enum Info {
    Unspec(Vec<u8>),
    Xstats(Vec<u8>),
    /// The name of the type of the link, such as `bridge` or `vlan`.
    Kind(String),
    /// The settings of the link; what they hold depends on the type.
    Data(Vec<u8>),
    SlaveKind(Vec<u8>),
    SlaveData(Vec<u8>),
    /// A record of a kind that is not in the table, kept as it came.
    Other(DefaultNla),
}

/// What an attribute of the description holds, as plain values.
pub enum InfoView {
    Unspec(Seq<u8>),
    Xstats(Seq<u8>),
    Kind(Seq<char>),
    Data(Seq<u8>),
    SlaveKind(Seq<u8>),
    SlaveData(Seq<u8>),
    Other(Record),
}

impl View for Info {
    type V = InfoView;

    open spec fn view(&self) -> InfoView {
        match self {
            Info::Unspec(b) => InfoView::Unspec(b@),
            Info::Xstats(b) => InfoView::Xstats(b@),
            Info::Kind(b) => InfoView::Kind(b@),
            Info::Data(b) => InfoView::Data(b@),
            Info::SlaveKind(b) => InfoView::SlaveKind(b@),
            Info::SlaveData(b) => InfoView::SlaveData(b@),
            Info::Other(d) => InfoView::Other(d@),
        }
    }
}

/// Whether the table has the kind.
pub open spec fn known_kind(kind: u16) -> bool {
    kind <= IFLA_INFO_SLAVE_DATA
}

impl InfoView {
    /// The kind that the attribute is written under.
    pub open spec fn kind(self) -> u16 {
        match self {
            InfoView::Unspec(_) => IFLA_INFO_UNSPEC,
            InfoView::Xstats(_) => IFLA_INFO_XSTATS,
            InfoView::Kind(_) => IFLA_INFO_KIND,
            InfoView::Data(_) => IFLA_INFO_DATA,
            InfoView::SlaveKind(_) => IFLA_INFO_SLAVE_KIND,
            InfoView::SlaveData(_) => IFLA_INFO_SLAVE_DATA,
            InfoView::Other(r) => r.kind,
        }
    }

    /// The bytes of the value.
    pub open spec fn value(self) -> Seq<u8> {
        match self {
            InfoView::Unspec(b)
            | InfoView::Xstats(b)
            | InfoView::Data(b)
            | InfoView::SlaveKind(b)
            | InfoView::SlaveData(b) => b,
            InfoView::Kind(s) => text_bytes(s),
            InfoView::Other(r) => r.value,
        }
    }

    /// Whether the attribute can be written: the length field can hold the
    /// length of its value.
    pub open spec fn emittable(self) -> bool {
        match self {
            _ => self.value().len() <= NLA_MAX_VALUE_LEN,
        }
    }

    /// Whether decoding can give the attribute: `Other` holds no kind that
    /// the table has.
    pub open spec fn canonical(self) -> bool {
        match self {
            InfoView::Other(r) => !known_kind(r.kind),
            _ => true,
        }
    }
}

/// What a record decodes to as an attribute of the description of the type of
/// a link. The name of the type fails as `Malformed` where it is not text
/// that ends in a zero byte. Every other record decodes, the ones whose kind
/// the table lacks to `Other`.
pub open spec fn decoded(r: Record) -> Result<InfoView, DecodeError> {
    match r.kind {
        IFLA_INFO_UNSPEC => Ok(InfoView::Unspec(r.value)),
        IFLA_INFO_XSTATS => Ok(InfoView::Xstats(r.value)),
        IFLA_INFO_KIND => match text_value(r.value, "IFLA_INFO_KIND") {
            Ok(x) => Ok(InfoView::Kind(x)),
            Err(e) => Err(e),
        },
        IFLA_INFO_DATA => Ok(InfoView::Data(r.value)),
        IFLA_INFO_SLAVE_KIND => Ok(InfoView::SlaveKind(r.value)),
        IFLA_INFO_SLAVE_DATA => Ok(InfoView::SlaveData(r.value)),
        _ => Ok(InfoView::Other(r)),
    }
}

impl Nla for Info {
    open spec fn record_of(v: InfoView) -> Record {
        Record { kind: v.kind(), value: v.value() }
    }

    open spec fn emittable(v: InfoView) -> bool {
        v.emittable()
    }

    proof fn lemma_emittable_fits(v: InfoView) {
        lemma_value_width(v);
    }

    fn is_emittable(&self) -> (b: bool) {
        proof {
            lemma_value_width(self@);
        }
        match self {
            Info::Unspec(b)
            | Info::Xstats(b)
            | Info::Data(b)
            | Info::SlaveKind(b)
            | Info::SlaveData(b) => b.len() <= NLA_MAX_VALUE_LEN,
            Info::Kind(s) => s.as_str().as_bytes().len() < NLA_MAX_VALUE_LEN,
            Info::Other(d) => d.is_emittable(),
        }
    }

    fn kind(&self) -> (k: u16) {
        match self {
            Info::Unspec(_) => IFLA_INFO_UNSPEC,
            Info::Xstats(_) => IFLA_INFO_XSTATS,
            Info::Kind(_) => IFLA_INFO_KIND,
            Info::Data(_) => IFLA_INFO_DATA,
            Info::SlaveKind(_) => IFLA_INFO_SLAVE_KIND,
            Info::SlaveData(_) => IFLA_INFO_SLAVE_DATA,
            Info::Other(d) => d.kind(),
        }
    }

    fn value_len(&self) -> (n: usize) {
        proof {
            lemma_value_width(self@);
        }
        match self {
            Info::Unspec(b)
            | Info::Xstats(b)
            | Info::Data(b)
            | Info::SlaveKind(b)
            | Info::SlaveData(b) => b.len(),
            Info::Kind(s) => s.as_str().as_bytes().len() + 1,
            Info::Other(d) => d.value_len(),
        }
    }

    fn emit_value(&self, buffer: &mut [u8]) {
        proof {
            lemma_value_width(self@);
        }
        match self {
            Info::Unspec(b)
            | Info::Xstats(b)
            | Info::Data(b)
            | Info::SlaveKind(b)
            | Info::SlaveData(b) => copy_bytes(buffer, b.as_slice()),
            Info::Kind(s) => {
                let bytes = s.as_str().as_bytes();
                let (text, end) = buffer.split_at_mut(bytes.len());
                copy_bytes(text, bytes);
                end[0] = 0;
                assert(buffer@ =~= text_bytes(s@));
            },
            Info::Other(d) => d.emit_value(buffer),
        }
    }
}

impl Parseable for Info {
    open spec fn parse_spec(r: Record) -> Result<InfoView, DecodeError> {
        decoded(r)
    }

    fn parse(buf: &NlaBuffer) -> (r: Result<Info, DecodeError>) {
        assert(Self::parse_spec(first_record(buf@)) == decoded(first_record(buf@)));
        let payload = buf.value();
        Ok(
            match buf.kind() {
                IFLA_INFO_UNSPEC => Info::Unspec(slice_to_vec(payload)),
                IFLA_INFO_XSTATS => Info::Xstats(slice_to_vec(payload)),
                IFLA_INFO_KIND => Info::Kind(parse_string(payload, "IFLA_INFO_KIND")?),
                IFLA_INFO_DATA => Info::Data(slice_to_vec(payload)),
                IFLA_INFO_SLAVE_KIND => Info::SlaveKind(slice_to_vec(payload)),
                IFLA_INFO_SLAVE_DATA => Info::SlaveData(slice_to_vec(payload)),
                _ => Info::Other(DefaultNla::parse(buf)?),
            },
        )
    }
}

/// The value of an attribute that can be written fits the length field:
/// a number takes as many bytes as its type has.
proof fn lemma_value_width(v: InfoView)
    ensures
        v is Kind ==> v.value().len() == encode_utf8(text_of(v)).len() + 1,
        v.emittable() ==> v.value().len() <= NLA_MAX_VALUE_LEN,
{
}

/// The text that a text attribute holds.
spec fn text_of(v: InfoView) -> Seq<char> {
    match v {
        InfoView::Kind(s) => s,
        _ => Seq::empty(),
    }
}

/// Decoding undoes writing: the record that an attribute is written as
/// decodes to that attribute, for every attribute that can be written and
/// that decoding can give.
pub proof fn lemma_round_trip(v: InfoView)
    requires
        v.emittable(),
        v.canonical(),
    ensures
        decoded(<Info as Nla>::record_of(v)) == Ok::<InfoView, DecodeError>(v),
{
    lemma_value_width(v);
    match v {
        InfoView::Kind(s) => lemma_text_round_trip(s, "IFLA_INFO_KIND"),
        _ => {},
    }
}

/// What a record decodes to is an attribute that decoding can give.
pub proof fn lemma_decoded_canonical(r: Record)
    requires
        decoded(r) is Ok,
    ensures
        decoded(r)->Ok_0.canonical(),
{
}

/// A record of a kind that the table lacks never fails to decode: it is
/// kept in `Other` with its kind and its value, and is written as the same
/// record again.
pub proof fn lemma_unknown_kind(r: Record)
    requires
        !known_kind(r.kind),
    ensures
        decoded(r) == Ok::<InfoView, DecodeError>(InfoView::Other(r)),
        <Info as Nla>::record_of(InfoView::Other(r)) == r,
{
}

} // verus!
