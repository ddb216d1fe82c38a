//! The attributes of a route message.
//!
//! Most kinds carry bytes that the codec hands on as they are: addresses,
//! and structures that the kernel packs into one attribute. One kind
//! carries a 16-bit number, seven carry a 32-bit number. Four kinds hold a
//! structure that the codec can decode or hand on as bytes: the caller
//! chooses with a `DecodePolicy`, and a decoded structure stands under a
//! name of its own. A record of a kind that is not in the table is kept
//! whole in `Other`.

use crate::byte_order::{
    lemma_u16_round_trip, lemma_u32_round_trip, native_u16_bytes, native_u32_bytes, write_u16,
    write_u32,
};
use crate::constants::{
    RTA_CACHEINFO, RTA_DST, RTA_ENCAP, RTA_ENCAP_TYPE, RTA_EXPIRES, RTA_FLOW, RTA_GATEWAY, RTA_IIF,
    RTA_MARK, RTA_METRICS, RTA_MFC_STATS, RTA_MP_ALGO, RTA_MULTIPATH, RTA_NEWDST, RTA_OIF, RTA_PAD,
    RTA_PREF, RTA_PREFSRC, RTA_PRIORITY, RTA_PROTOINFO, RTA_SESSION, RTA_SRC, RTA_TABLE,
    RTA_TTL_PROPAGATE, RTA_UID, RTA_UNSPEC, RTA_VIA,
};
use crate::errors::DecodeError;
use crate::nla::{
    DefaultNla, NLA_MAX_VALUE_LEN, Nla as Attribute, NlaBuffer, Parseable, ParseableParametrized,
    Record, buffer_len, check_header, copy_bytes, emit, first_record, lemma_first_of_written,
    record_bytes,
};
use crate::parsers::{
    parse_u16, parse_u32, u16_value, u32_value,
};
use crate::route::cache_info::{self, CacheInfo, CacheInfoBuffer, CACHE_INFO_LEN};
use crate::route::metrics::{self, Metrics, MetricsView};
use crate::route::mfc_stats::{self, MfcStats, MfcStatsBuffer, MFC_STATS_LEN};
use crate::route::next_hops::{self, NextHops, NextHopsBuffer, NEXT_HOPS_LEN};
use vstd::prelude::*;
use vstd::slice::slice_to_vec;

verus! {

/// How the four kinds that hold a structure are decoded.
#[derive(Debug, Clone, Copy, PartialEq, Eq, Structural)]
pub enum DecodePolicy {
    /// The structure is handed on as the bytes that came.
    Raw,
    /// The structure is decoded into its fields.
    Rich,
}

/// One attribute of a route message.
#[derive(Debug, PartialEq, Eq, Clone)]
pub enum Nla {
    Unspec(Vec<u8>),
    /// The address of the destination, four bytes for IPv4 and sixteen for
    /// IPv6.
    Destination(Vec<u8>),
    /// The address of the source.
    Source(Vec<u8>),
    /// The index of the input interface.
    Iif(u32),
    /// The index of the output interface.
    Oif(u32),
    /// The address of the gateway.
    Gateway(Vec<u8>),
    Priority(u32),
    PrefSource(Vec<u8>),
    /// The metrics as they came, under the policy `Raw`.
    Metrics(Vec<u8>),
    /// The first metric, decoded, under the policy `Rich`.
    RichMetrics(Metrics),
    /// The next hops as they came, under the policy `Raw`.
    MultiPath(Vec<u8>),
    /// The next-hop record, decoded, under the policy `Rich`.
    RichMultiPath(NextHops),
    ProtocolInfo(u32),
    Flow(u32),
    /// What the kernel knows of a cached route as it came, under the policy
    /// `Raw`.
    CacheInfo(Vec<u8>),
    /// What the kernel knows of a cached route, decoded, under the policy
    /// `Rich`.
    RichCacheInfo(CacheInfo),
    Session(Vec<u8>),
    MpAlgo(Vec<u8>),
    Table(u32),
    Mark(u32),
    /// The counters of a multicast route as they came, under the policy
    /// `Raw`.
    MfcStats(Vec<u8>),
    /// The counters of a multicast route, decoded, under the policy `Rich`.
    RichMfcStats(MfcStats),
    Via(Vec<u8>),
    NewDestination(Vec<u8>),
    Pref(Vec<u8>),
    EncapType(u16),
    Encap(Vec<u8>),
    Expires(Vec<u8>),
    Pad(Vec<u8>),
    Uid(Vec<u8>),
    TtlPropagate(Vec<u8>),
    /// A record of a kind that is not in the table, kept as it came.
    Other(DefaultNla),
}

/// What an attribute of a route message holds, as plain values.
pub enum NlaView {
    Unspec(Seq<u8>),
    Destination(Seq<u8>),
    Source(Seq<u8>),
    Iif(u32),
    Oif(u32),
    Gateway(Seq<u8>),
    Priority(u32),
    PrefSource(Seq<u8>),
    Metrics(Seq<u8>),
    RichMetrics(MetricsView),
    MultiPath(Seq<u8>),
    RichMultiPath(NextHops),
    ProtocolInfo(u32),
    Flow(u32),
    CacheInfo(Seq<u8>),
    RichCacheInfo(CacheInfo),
    Session(Seq<u8>),
    MpAlgo(Seq<u8>),
    Table(u32),
    Mark(u32),
    MfcStats(Seq<u8>),
    RichMfcStats(MfcStats),
    Via(Seq<u8>),
    NewDestination(Seq<u8>),
    Pref(Seq<u8>),
    EncapType(u16),
    Encap(Seq<u8>),
    Expires(Seq<u8>),
    Pad(Seq<u8>),
    Uid(Seq<u8>),
    TtlPropagate(Seq<u8>),
    Other(Record),
}

impl View for Nla {
    type V = NlaView;

    open spec fn view(&self) -> NlaView {
        match self {
            Nla::Unspec(b) => NlaView::Unspec(b@),
            Nla::Destination(b) => NlaView::Destination(b@),
            Nla::Source(b) => NlaView::Source(b@),
            Nla::Iif(x) => NlaView::Iif(*x),
            Nla::Oif(x) => NlaView::Oif(*x),
            Nla::Gateway(b) => NlaView::Gateway(b@),
            Nla::Priority(x) => NlaView::Priority(*x),
            Nla::PrefSource(b) => NlaView::PrefSource(b@),
            Nla::Metrics(b) => NlaView::Metrics(b@),
            Nla::RichMetrics(m) => NlaView::RichMetrics(m@),
            Nla::MultiPath(b) => NlaView::MultiPath(b@),
            Nla::RichMultiPath(x) => NlaView::RichMultiPath(*x),
            Nla::ProtocolInfo(x) => NlaView::ProtocolInfo(*x),
            Nla::Flow(x) => NlaView::Flow(*x),
            Nla::CacheInfo(b) => NlaView::CacheInfo(b@),
            Nla::RichCacheInfo(x) => NlaView::RichCacheInfo(*x),
            Nla::Session(b) => NlaView::Session(b@),
            Nla::MpAlgo(b) => NlaView::MpAlgo(b@),
            Nla::Table(x) => NlaView::Table(*x),
            Nla::Mark(x) => NlaView::Mark(*x),
            Nla::MfcStats(b) => NlaView::MfcStats(b@),
            Nla::RichMfcStats(x) => NlaView::RichMfcStats(*x),
            Nla::Via(b) => NlaView::Via(b@),
            Nla::NewDestination(b) => NlaView::NewDestination(b@),
            Nla::Pref(b) => NlaView::Pref(b@),
            Nla::EncapType(x) => NlaView::EncapType(*x),
            Nla::Encap(b) => NlaView::Encap(b@),
            Nla::Expires(b) => NlaView::Expires(b@),
            Nla::Pad(b) => NlaView::Pad(b@),
            Nla::Uid(b) => NlaView::Uid(b@),
            Nla::TtlPropagate(b) => NlaView::TtlPropagate(b@),
            Nla::Other(d) => NlaView::Other(d@),
        }
    }
}

/// Whether the table has the kind.
pub open spec fn known_kind(kind: u16) -> bool {
    kind <= RTA_TTL_PROPAGATE
}

impl NlaView {
    /// The kind that the attribute is written under.
    pub open spec fn kind(self) -> u16 {
        match self {
            NlaView::Unspec(_) => RTA_UNSPEC,
            NlaView::Destination(_) => RTA_DST,
            NlaView::Source(_) => RTA_SRC,
            NlaView::Iif(_) => RTA_IIF,
            NlaView::Oif(_) => RTA_OIF,
            NlaView::Gateway(_) => RTA_GATEWAY,
            NlaView::Priority(_) => RTA_PRIORITY,
            NlaView::PrefSource(_) => RTA_PREFSRC,
            NlaView::Metrics(_) => RTA_METRICS,
            NlaView::RichMetrics(_) => RTA_METRICS,
            NlaView::MultiPath(_) => RTA_MULTIPATH,
            NlaView::RichMultiPath(_) => RTA_MULTIPATH,
            NlaView::ProtocolInfo(_) => RTA_PROTOINFO,
            NlaView::Flow(_) => RTA_FLOW,
            NlaView::CacheInfo(_) => RTA_CACHEINFO,
            NlaView::RichCacheInfo(_) => RTA_CACHEINFO,
            NlaView::Session(_) => RTA_SESSION,
            NlaView::MpAlgo(_) => RTA_MP_ALGO,
            NlaView::Table(_) => RTA_TABLE,
            NlaView::Mark(_) => RTA_MARK,
            NlaView::MfcStats(_) => RTA_MFC_STATS,
            NlaView::RichMfcStats(_) => RTA_MFC_STATS,
            NlaView::Via(_) => RTA_VIA,
            NlaView::NewDestination(_) => RTA_NEWDST,
            NlaView::Pref(_) => RTA_PREF,
            NlaView::EncapType(_) => RTA_ENCAP_TYPE,
            NlaView::Encap(_) => RTA_ENCAP,
            NlaView::Expires(_) => RTA_EXPIRES,
            NlaView::Pad(_) => RTA_PAD,
            NlaView::Uid(_) => RTA_UID,
            NlaView::TtlPropagate(_) => RTA_TTL_PROPAGATE,
            NlaView::Other(r) => r.kind,
        }
    }

    /// The bytes of the value.
    pub open spec fn value(self) -> Seq<u8> {
        match self {
            NlaView::Unspec(b)
            | NlaView::Destination(b)
            | NlaView::Source(b)
            | NlaView::Gateway(b)
            | NlaView::PrefSource(b)
            | NlaView::Metrics(b)
            | NlaView::MultiPath(b)
            | NlaView::CacheInfo(b)
            | NlaView::Session(b)
            | NlaView::MpAlgo(b)
            | NlaView::MfcStats(b)
            | NlaView::Via(b)
            | NlaView::NewDestination(b)
            | NlaView::Pref(b)
            | NlaView::Encap(b)
            | NlaView::Expires(b)
            | NlaView::Pad(b)
            | NlaView::Uid(b)
            | NlaView::TtlPropagate(b) => b,
            NlaView::EncapType(x) => native_u16_bytes(x),
            NlaView::Iif(x)
            | NlaView::Oif(x)
            | NlaView::Priority(x)
            | NlaView::ProtocolInfo(x)
            | NlaView::Flow(x)
            | NlaView::Table(x)
            | NlaView::Mark(x) => native_u32_bytes(x),
            NlaView::RichMultiPath(x) => next_hops::wire_bytes(x),
            NlaView::RichCacheInfo(x) => cache_info::wire_bytes(x),
            NlaView::RichMfcStats(x) => mfc_stats::wire_bytes(x),
            NlaView::RichMetrics(m) => record_bytes(<Metrics as Attribute>::record_of(m)),
            NlaView::Other(r) => r.value,
        }
    }

    /// Whether the attribute can be written: the length field can hold the
    /// length of its value, and each nested attribute can be written.
    pub open spec fn emittable(self) -> bool {
        match self {
            NlaView::RichMetrics(m) => <Metrics as Attribute>::emittable(m) && record_bytes(
                <Metrics as Attribute>::record_of(m),
            ).len() <= NLA_MAX_VALUE_LEN,
            _ => self.value().len() <= NLA_MAX_VALUE_LEN,
        }
    }

    /// Whether decoding can give the attribute under the policy `policy`: a
    /// structure is decoded or not as the policy says, a decoded metric is
    /// one that decoding can give, and `Other` holds no kind that the table
    /// has.
    pub open spec fn canonical(self, policy: DecodePolicy) -> bool {
        match self {
            NlaView::Metrics(_) => policy == DecodePolicy::Raw,
            NlaView::RichMetrics(m) => {
                &&& policy == DecodePolicy::Rich
                &&& m.canonical()
            },
            NlaView::MultiPath(_) => policy == DecodePolicy::Raw,
            NlaView::RichMultiPath(_) => policy == DecodePolicy::Rich,
            NlaView::CacheInfo(_) => policy == DecodePolicy::Raw,
            NlaView::RichCacheInfo(_) => policy == DecodePolicy::Rich,
            NlaView::MfcStats(_) => policy == DecodePolicy::Raw,
            NlaView::RichMfcStats(_) => policy == DecodePolicy::Rich,
            NlaView::Other(r) => !known_kind(r.kind),
            _ => true,
        }
    }
}

/// What a record decodes to as an attribute of a route message under the
/// policy `policy`. A kind with a number fails as `Malformed` on a value of
/// another width. Under the policy `Rich`, a structure that is cut short
/// fails within the name of its kind. Every other record decodes, the ones
/// whose kind the table lacks to `Other`.
pub open spec fn decoded(r: Record, policy: DecodePolicy) -> Result<NlaView, DecodeError> {
    match r.kind {
        RTA_UNSPEC => Ok(NlaView::Unspec(r.value)),
        RTA_DST => Ok(NlaView::Destination(r.value)),
        RTA_SRC => Ok(NlaView::Source(r.value)),
        RTA_IIF => match u32_value(r.value, "RTA_IIF") {
            Ok(x) => Ok(NlaView::Iif(x)),
            Err(e) => Err(e),
        },
        RTA_OIF => match u32_value(r.value, "RTA_OIF") {
            Ok(x) => Ok(NlaView::Oif(x)),
            Err(e) => Err(e),
        },
        RTA_GATEWAY => Ok(NlaView::Gateway(r.value)),
        RTA_PRIORITY => match u32_value(r.value, "RTA_PRIORITY") {
            Ok(x) => Ok(NlaView::Priority(x)),
            Err(e) => Err(e),
        },
        RTA_PREFSRC => Ok(NlaView::PrefSource(r.value)),
        RTA_METRICS => match policy {
            DecodePolicy::Raw => Ok(NlaView::Metrics(r.value)),
            DecodePolicy::Rich => if check_header(r.value) is Err {
                Err(check_header(r.value)->Err_0.within("RTA_METRICS"))
            } else {
                match metrics::decoded(first_record(r.value)) {
                    Ok(m) => Ok(NlaView::RichMetrics(m)),
                    Err(e) => Err(e.within("RTA_METRICS")),
                }
            },
        },
        RTA_MULTIPATH => match policy {
            DecodePolicy::Raw => Ok(NlaView::MultiPath(r.value)),
            DecodePolicy::Rich => match next_hops::decoded(r.value) {
                Ok(x) => Ok(NlaView::RichMultiPath(x)),
                Err(e) => Err(e.within("RTA_MULTIPATH")),
            },
        },
        RTA_PROTOINFO => match u32_value(r.value, "RTA_PROTOINFO") {
            Ok(x) => Ok(NlaView::ProtocolInfo(x)),
            Err(e) => Err(e),
        },
        RTA_FLOW => match u32_value(r.value, "RTA_FLOW") {
            Ok(x) => Ok(NlaView::Flow(x)),
            Err(e) => Err(e),
        },
        RTA_CACHEINFO => match policy {
            DecodePolicy::Raw => Ok(NlaView::CacheInfo(r.value)),
            DecodePolicy::Rich => match cache_info::decoded(r.value) {
                Ok(x) => Ok(NlaView::RichCacheInfo(x)),
                Err(e) => Err(e.within("RTA_CACHEINFO")),
            },
        },
        RTA_SESSION => Ok(NlaView::Session(r.value)),
        RTA_MP_ALGO => Ok(NlaView::MpAlgo(r.value)),
        RTA_TABLE => match u32_value(r.value, "RTA_TABLE") {
            Ok(x) => Ok(NlaView::Table(x)),
            Err(e) => Err(e),
        },
        RTA_MARK => match u32_value(r.value, "RTA_MARK") {
            Ok(x) => Ok(NlaView::Mark(x)),
            Err(e) => Err(e),
        },
        RTA_MFC_STATS => match policy {
            DecodePolicy::Raw => Ok(NlaView::MfcStats(r.value)),
            DecodePolicy::Rich => match mfc_stats::decoded(r.value) {
                Ok(x) => Ok(NlaView::RichMfcStats(x)),
                Err(e) => Err(e.within("RTA_MFC_STATS")),
            },
        },
        RTA_VIA => Ok(NlaView::Via(r.value)),
        RTA_NEWDST => Ok(NlaView::NewDestination(r.value)),
        RTA_PREF => Ok(NlaView::Pref(r.value)),
        RTA_ENCAP_TYPE => match u16_value(r.value, "RTA_ENCAP_TYPE") {
            Ok(x) => Ok(NlaView::EncapType(x)),
            Err(e) => Err(e),
        },
        RTA_ENCAP => Ok(NlaView::Encap(r.value)),
        RTA_EXPIRES => Ok(NlaView::Expires(r.value)),
        RTA_PAD => Ok(NlaView::Pad(r.value)),
        RTA_UID => Ok(NlaView::Uid(r.value)),
        RTA_TTL_PROPAGATE => Ok(NlaView::TtlPropagate(r.value)),
        _ => Ok(NlaView::Other(r)),
    }
}

impl Attribute for Nla {
    open spec fn record_of(v: NlaView) -> Record {
        Record { kind: v.kind(), value: v.value() }
    }

    open spec fn emittable(v: NlaView) -> bool {
        v.emittable()
    }

    proof fn lemma_emittable_fits(v: NlaView) {
        lemma_value_width(v);
    }

    fn is_emittable(&self) -> (b: bool) {
        proof {
            lemma_value_width(self@);
        }
        match self {
            Nla::Unspec(b)
            | Nla::Destination(b)
            | Nla::Source(b)
            | Nla::Gateway(b)
            | Nla::PrefSource(b)
            | Nla::Metrics(b)
            | Nla::MultiPath(b)
            | Nla::CacheInfo(b)
            | Nla::Session(b)
            | Nla::MpAlgo(b)
            | Nla::MfcStats(b)
            | Nla::Via(b)
            | Nla::NewDestination(b)
            | Nla::Pref(b)
            | Nla::Encap(b)
            | Nla::Expires(b)
            | Nla::Pad(b)
            | Nla::Uid(b)
            | Nla::TtlPropagate(b) => b.len() <= NLA_MAX_VALUE_LEN,
            Nla::RichMetrics(m) => m.is_emittable() && buffer_len(m) <= NLA_MAX_VALUE_LEN,
            Nla::Other(d) => d.is_emittable(),
            _ => true,
        }
    }

    fn kind(&self) -> (k: u16) {
        match self {
            Nla::Unspec(_) => RTA_UNSPEC,
            Nla::Destination(_) => RTA_DST,
            Nla::Source(_) => RTA_SRC,
            Nla::Iif(_) => RTA_IIF,
            Nla::Oif(_) => RTA_OIF,
            Nla::Gateway(_) => RTA_GATEWAY,
            Nla::Priority(_) => RTA_PRIORITY,
            Nla::PrefSource(_) => RTA_PREFSRC,
            Nla::Metrics(_) => RTA_METRICS,
            Nla::RichMetrics(_) => RTA_METRICS,
            Nla::MultiPath(_) => RTA_MULTIPATH,
            Nla::RichMultiPath(_) => RTA_MULTIPATH,
            Nla::ProtocolInfo(_) => RTA_PROTOINFO,
            Nla::Flow(_) => RTA_FLOW,
            Nla::CacheInfo(_) => RTA_CACHEINFO,
            Nla::RichCacheInfo(_) => RTA_CACHEINFO,
            Nla::Session(_) => RTA_SESSION,
            Nla::MpAlgo(_) => RTA_MP_ALGO,
            Nla::Table(_) => RTA_TABLE,
            Nla::Mark(_) => RTA_MARK,
            Nla::MfcStats(_) => RTA_MFC_STATS,
            Nla::RichMfcStats(_) => RTA_MFC_STATS,
            Nla::Via(_) => RTA_VIA,
            Nla::NewDestination(_) => RTA_NEWDST,
            Nla::Pref(_) => RTA_PREF,
            Nla::EncapType(_) => RTA_ENCAP_TYPE,
            Nla::Encap(_) => RTA_ENCAP,
            Nla::Expires(_) => RTA_EXPIRES,
            Nla::Pad(_) => RTA_PAD,
            Nla::Uid(_) => RTA_UID,
            Nla::TtlPropagate(_) => RTA_TTL_PROPAGATE,
            Nla::Other(d) => d.kind(),
        }
    }

    fn value_len(&self) -> (n: usize) {
        proof {
            lemma_value_width(self@);
        }
        match self {
            Nla::Unspec(b)
            | Nla::Destination(b)
            | Nla::Source(b)
            | Nla::Gateway(b)
            | Nla::PrefSource(b)
            | Nla::Metrics(b)
            | Nla::MultiPath(b)
            | Nla::CacheInfo(b)
            | Nla::Session(b)
            | Nla::MpAlgo(b)
            | Nla::MfcStats(b)
            | Nla::Via(b)
            | Nla::NewDestination(b)
            | Nla::Pref(b)
            | Nla::Encap(b)
            | Nla::Expires(b)
            | Nla::Pad(b)
            | Nla::Uid(b)
            | Nla::TtlPropagate(b) => b.len(),
            Nla::EncapType(_) => 2,
            Nla::Iif(_)
            | Nla::Oif(_)
            | Nla::Priority(_)
            | Nla::ProtocolInfo(_)
            | Nla::Flow(_)
            | Nla::Table(_)
            | Nla::Mark(_) => 4,
            Nla::RichMultiPath(_) => NEXT_HOPS_LEN,
            Nla::RichCacheInfo(_) => CACHE_INFO_LEN,
            Nla::RichMfcStats(_) => MFC_STATS_LEN,
            Nla::RichMetrics(m) => buffer_len(m),
            Nla::Other(d) => d.value_len(),
        }
    }

    fn emit_value(&self, buffer: &mut [u8]) {
        proof {
            lemma_value_width(self@);
        }
        match self {
            Nla::Unspec(b)
            | Nla::Destination(b)
            | Nla::Source(b)
            | Nla::Gateway(b)
            | Nla::PrefSource(b)
            | Nla::Metrics(b)
            | Nla::MultiPath(b)
            | Nla::CacheInfo(b)
            | Nla::Session(b)
            | Nla::MpAlgo(b)
            | Nla::MfcStats(b)
            | Nla::Via(b)
            | Nla::NewDestination(b)
            | Nla::Pref(b)
            | Nla::Encap(b)
            | Nla::Expires(b)
            | Nla::Pad(b)
            | Nla::Uid(b)
            | Nla::TtlPropagate(b) => copy_bytes(buffer, b.as_slice()),
            Nla::EncapType(x) => {
                write_u16(buffer, *x);
                assert(buffer@ =~= native_u16_bytes(*x));
            },
            Nla::Iif(x)
            | Nla::Oif(x)
            | Nla::Priority(x)
            | Nla::ProtocolInfo(x)
            | Nla::Flow(x)
            | Nla::Table(x)
            | Nla::Mark(x) => {
                write_u32(buffer, *x);
                assert(buffer@ =~= native_u32_bytes(*x));
            },
            Nla::RichMultiPath(x) => {
                x.emit_padded(buffer);
                assert(buffer@ =~= next_hops::wire_bytes(*x));
            },
            Nla::RichCacheInfo(x) => {
                x.emit(buffer);
                assert(buffer@ =~= cache_info::wire_bytes(*x));
            },
            Nla::RichMfcStats(x) => {
                x.emit(buffer);
                assert(buffer@ =~= mfc_stats::wire_bytes(*x));
            },
            Nla::RichMetrics(m) => {
                emit(m, buffer);
                assert(buffer@ =~= record_bytes(<Metrics as Attribute>::record_of(m@)));
            },
            Nla::Other(d) => d.emit_value(buffer),
        }
    }
}

impl ParseableParametrized<DecodePolicy> for Nla {
    open spec fn parse_spec_with(r: Record, policy: DecodePolicy) -> Result<NlaView, DecodeError> {
        decoded(r, policy)
    }

    fn parse_with_param(buf: &NlaBuffer, policy: DecodePolicy) -> (r: Result<Nla, DecodeError>) {
        assert(Self::parse_spec_with(first_record(buf@), policy) == decoded(
            first_record(buf@),
            policy,
        ));
        let payload = buf.value();
        Ok(
            match buf.kind() {
                RTA_UNSPEC => Nla::Unspec(slice_to_vec(payload)),
                RTA_DST => Nla::Destination(slice_to_vec(payload)),
                RTA_SRC => Nla::Source(slice_to_vec(payload)),
                RTA_IIF => Nla::Iif(parse_u32(payload, "RTA_IIF")?),
                RTA_OIF => Nla::Oif(parse_u32(payload, "RTA_OIF")?),
                RTA_GATEWAY => Nla::Gateway(slice_to_vec(payload)),
                RTA_PRIORITY => Nla::Priority(parse_u32(payload, "RTA_PRIORITY")?),
                RTA_PREFSRC => Nla::PrefSource(slice_to_vec(payload)),
                RTA_METRICS => match policy {
                    DecodePolicy::Raw => Nla::Metrics(slice_to_vec(payload)),
                    DecodePolicy::Rich => match NlaBuffer::new_checked(payload) {
                        Ok(inner) => match Metrics::parse(&inner) {
                            Ok(m) => Nla::RichMetrics(m),
                            Err(e) => {
                                return Err(e.nested_in("RTA_METRICS"));
                            },
                        },
                        Err(e) => {
                            return Err(e.nested_in("RTA_METRICS"));
                        },
                    },
                },
                RTA_MULTIPATH => match policy {
                    DecodePolicy::Raw => Nla::MultiPath(slice_to_vec(payload)),
                    DecodePolicy::Rich => match NextHopsBuffer::new_checked(payload) {
                        Ok(fields) => match NextHops::parse(&fields) {
                            Ok(x) => Nla::RichMultiPath(x),
                            Err(e) => {
                                return Err(e.nested_in("RTA_MULTIPATH"));
                            },
                        },
                        Err(e) => {
                            return Err(e.nested_in("RTA_MULTIPATH"));
                        },
                    },
                },
                RTA_PROTOINFO => Nla::ProtocolInfo(parse_u32(payload, "RTA_PROTOINFO")?),
                RTA_FLOW => Nla::Flow(parse_u32(payload, "RTA_FLOW")?),
                RTA_CACHEINFO => match policy {
                    DecodePolicy::Raw => Nla::CacheInfo(slice_to_vec(payload)),
                    DecodePolicy::Rich => match CacheInfoBuffer::new_checked(payload) {
                        Ok(fields) => match CacheInfo::parse(&fields) {
                            Ok(x) => Nla::RichCacheInfo(x),
                            Err(e) => {
                                return Err(e.nested_in("RTA_CACHEINFO"));
                            },
                        },
                        Err(e) => {
                            return Err(e.nested_in("RTA_CACHEINFO"));
                        },
                    },
                },
                RTA_SESSION => Nla::Session(slice_to_vec(payload)),
                RTA_MP_ALGO => Nla::MpAlgo(slice_to_vec(payload)),
                RTA_TABLE => Nla::Table(parse_u32(payload, "RTA_TABLE")?),
                RTA_MARK => Nla::Mark(parse_u32(payload, "RTA_MARK")?),
                RTA_MFC_STATS => match policy {
                    DecodePolicy::Raw => Nla::MfcStats(slice_to_vec(payload)),
                    DecodePolicy::Rich => match MfcStatsBuffer::new_checked(payload) {
                        Ok(fields) => match MfcStats::parse(&fields) {
                            Ok(x) => Nla::RichMfcStats(x),
                            Err(e) => {
                                return Err(e.nested_in("RTA_MFC_STATS"));
                            },
                        },
                        Err(e) => {
                            return Err(e.nested_in("RTA_MFC_STATS"));
                        },
                    },
                },
                RTA_VIA => Nla::Via(slice_to_vec(payload)),
                RTA_NEWDST => Nla::NewDestination(slice_to_vec(payload)),
                RTA_PREF => Nla::Pref(slice_to_vec(payload)),
                RTA_ENCAP_TYPE => Nla::EncapType(parse_u16(payload, "RTA_ENCAP_TYPE")?),
                RTA_ENCAP => Nla::Encap(slice_to_vec(payload)),
                RTA_EXPIRES => Nla::Expires(slice_to_vec(payload)),
                RTA_PAD => Nla::Pad(slice_to_vec(payload)),
                RTA_UID => Nla::Uid(slice_to_vec(payload)),
                RTA_TTL_PROPAGATE => Nla::TtlPropagate(slice_to_vec(payload)),
                _ => Nla::Other(DefaultNla::parse(buf)?),
            },
        )
    }
}

impl Parseable for Nla {
    open spec fn parse_spec(r: Record) -> Result<NlaView, DecodeError> {
        decoded(r, DecodePolicy::Raw)
    }

    /// Decodes the record under the policy `Raw`.
    fn parse(buf: &NlaBuffer) -> (r: Result<Nla, DecodeError>) {
        Nla::parse_with_param(buf, DecodePolicy::Raw)
    }
}

/// The value of an attribute that can be written fits the length field:
/// a number takes as many bytes as its type has.
proof fn lemma_value_width(v: NlaView)
    ensures
        v is EncapType ==> v.value().len() == 2,
        (v is Iif || v is Oif || v is Priority || v is ProtocolInfo || v is Flow ||
            v is Table || v is Mark) ==> v.value().len() == 4,
        v is RichMultiPath ==> v.value().len() == NEXT_HOPS_LEN,
        v is RichCacheInfo ==> v.value().len() == CACHE_INFO_LEN,
        v is RichMfcStats ==> v.value().len() == MFC_STATS_LEN,
        v.emittable() ==> v.value().len() <= NLA_MAX_VALUE_LEN,
{
    match v {
        NlaView::EncapType(x) => lemma_u16_round_trip(x, Seq::empty()),
        NlaView::Iif(x)
        | NlaView::Oif(x)
        | NlaView::Priority(x)
        | NlaView::ProtocolInfo(x)
        | NlaView::Flow(x)
        | NlaView::Table(x)
        | NlaView::Mark(x) => lemma_u32_round_trip(x, Seq::empty()),
        NlaView::RichMultiPath(x) => next_hops::lemma_padded_round_trip(x),
        NlaView::RichCacheInfo(x) => cache_info::lemma_round_trip(x, Seq::empty()),
        NlaView::RichMfcStats(x) => mfc_stats::lemma_round_trip(x, Seq::empty()),
        _ => {},
    }
}

/// Decoding undoes writing: the record that an attribute is written as
/// decodes to that attribute, for every attribute that can be written and
/// that decoding can give under the policy.
pub proof fn lemma_round_trip(v: NlaView, policy: DecodePolicy)
    requires
        v.emittable(),
        v.canonical(policy),
    ensures
        decoded(<Nla as Attribute>::record_of(v), policy) == Ok::<NlaView, DecodeError>(v),
{
    lemma_value_width(v);
    match v {
        NlaView::EncapType(x) => lemma_u16_round_trip(x, Seq::empty()),
        NlaView::Iif(x)
        | NlaView::Oif(x)
        | NlaView::Priority(x)
        | NlaView::ProtocolInfo(x)
        | NlaView::Flow(x)
        | NlaView::Table(x)
        | NlaView::Mark(x) => lemma_u32_round_trip(x, Seq::empty()),
        NlaView::RichMultiPath(x) => {
            next_hops::lemma_padded_round_trip(x);
            assert(next_hops::wire_bytes(x) + Seq::<u8>::empty() =~= next_hops::wire_bytes(x));
        },
        NlaView::RichCacheInfo(x) => {
            cache_info::lemma_round_trip(x, Seq::empty());
            assert(cache_info::wire_bytes(x) + Seq::<u8>::empty() =~= cache_info::wire_bytes(x));
        },
        NlaView::RichMfcStats(x) => {
            mfc_stats::lemma_round_trip(x, Seq::empty());
            assert(mfc_stats::wire_bytes(x) + Seq::<u8>::empty() =~= mfc_stats::wire_bytes(x));
        },
        NlaView::RichMetrics(m) => {
            let one = <Metrics as Attribute>::record_of(m);
            metrics::lemma_round_trip(m);
            <Metrics as Attribute>::lemma_emittable_fits(m);
            lemma_first_of_written(one, Seq::empty());
            assert(record_bytes(one) + Seq::<u8>::empty() =~= record_bytes(one));
        },
        _ => {},
    }
}

/// What a record decodes to is an attribute that decoding can give under the policy.
pub proof fn lemma_decoded_canonical(r: Record, policy: DecodePolicy)
    requires
        decoded(r, policy) is Ok,
    ensures
        decoded(r, policy)->Ok_0.canonical(policy),
{
    match decoded(r, policy)->Ok_0 {
        NlaView::RichMetrics(_) => metrics::lemma_decoded_canonical(first_record(r.value)),
        _ => {},
    }
}

/// A record of a kind that the table lacks never fails to decode: it is
/// kept in `Other` with its kind and its value, and is written as the same
/// record again.
pub proof fn lemma_unknown_kind(r: Record, policy: DecodePolicy)
    requires
        !known_kind(r.kind),
    ensures
        decoded(r, policy) == Ok::<NlaView, DecodeError>(NlaView::Other(r)),
        <Nla as Attribute>::record_of(NlaView::Other(r)) == r,
{
}

/// Under the policy `Raw`, writing undoes decoding: what a record decodes
/// to is written as that record again, kind and value.
pub proof fn lemma_decoded_keeps_record(r: Record)
    requires
        decoded(r, DecodePolicy::Raw) is Ok,
    ensures
        <Nla as Attribute>::record_of(decoded(r, DecodePolicy::Raw)->Ok_0) == r,
{
    if r.kind == RTA_ENCAP_TYPE {
        lemma_u16_round_trip(0, r.value);
    } else {
        lemma_u32_round_trip(0, r.value);
    }
}

} // verus!
