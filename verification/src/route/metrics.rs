//! The metrics of a route: attributes of their own kinds, each a 32-bit
//! number.

use crate::byte_order::{
    lemma_u32_round_trip, native_u32_bytes, write_u32,
};
use crate::constants::{
    RTAX_ADVMSS, RTAX_CC_ALGO, RTAX_CWND, RTAX_FASTOPEN_NO_COOKIE, RTAX_FEATURES, RTAX_HOPLIMIT,
    RTAX_INITCWND, RTAX_INITRWND, RTAX_LOCK, RTAX_MTU, RTAX_QUICKACK, RTAX_REORDERING,
    RTAX_RTO_MIN, RTAX_RTT, RTAX_RTTVAR, RTAX_SSTHRESH, RTAX_UNSPEC, RTAX_WINDOW,
};
use crate::errors::DecodeError;
use crate::nla::{
    DefaultNla, NLA_MAX_VALUE_LEN, Nla, NlaBuffer, Parseable, Record, copy_bytes, first_record,
};
use crate::parsers::{
    parse_u32, u32_value,
};
use vstd::prelude::*;
use vstd::slice::slice_to_vec;

verus! {

/// One metric of a route.
#[derive(Debug, PartialEq, Eq, Clone)]
pub enum Metrics {
    Unspec(Vec<u8>),
    Lock(u32),
    Mtu(u32),
    Window(u32),
    Rtt(u32),
    RttVar(u32),
    SsThresh(u32),
    Cwnd(u32),
    Advmss(u32),
    Reordering(u32),
    Hoplimit(u32),
    InitCwnd(u32),
    Features(u32),
    RtoMin(u32),
    InitRwnd(u32),
    QuickAck(u32),
    CcAlgo(u32),
    FastopenNoCookie(u32),
    /// A record of a kind that is not in the table, kept as it came.
    Other(DefaultNla),
}

/// What a metric of a route holds, as plain values.
pub enum MetricsView {
    Unspec(Seq<u8>),
    Lock(u32),
    Mtu(u32),
    Window(u32),
    Rtt(u32),
    RttVar(u32),
    SsThresh(u32),
    Cwnd(u32),
    Advmss(u32),
    Reordering(u32),
    Hoplimit(u32),
    InitCwnd(u32),
    Features(u32),
    RtoMin(u32),
    InitRwnd(u32),
    QuickAck(u32),
    CcAlgo(u32),
    FastopenNoCookie(u32),
    Other(Record),
}

impl View for Metrics {
    type V = MetricsView;

    open spec fn view(&self) -> MetricsView {
        match self {
            Metrics::Unspec(b) => MetricsView::Unspec(b@),
            Metrics::Lock(x) => MetricsView::Lock(*x),
            Metrics::Mtu(x) => MetricsView::Mtu(*x),
            Metrics::Window(x) => MetricsView::Window(*x),
            Metrics::Rtt(x) => MetricsView::Rtt(*x),
            Metrics::RttVar(x) => MetricsView::RttVar(*x),
            Metrics::SsThresh(x) => MetricsView::SsThresh(*x),
            Metrics::Cwnd(x) => MetricsView::Cwnd(*x),
            Metrics::Advmss(x) => MetricsView::Advmss(*x),
            Metrics::Reordering(x) => MetricsView::Reordering(*x),
            Metrics::Hoplimit(x) => MetricsView::Hoplimit(*x),
            Metrics::InitCwnd(x) => MetricsView::InitCwnd(*x),
            Metrics::Features(x) => MetricsView::Features(*x),
            Metrics::RtoMin(x) => MetricsView::RtoMin(*x),
            Metrics::InitRwnd(x) => MetricsView::InitRwnd(*x),
            Metrics::QuickAck(x) => MetricsView::QuickAck(*x),
            Metrics::CcAlgo(x) => MetricsView::CcAlgo(*x),
            Metrics::FastopenNoCookie(x) => MetricsView::FastopenNoCookie(*x),
            Metrics::Other(d) => MetricsView::Other(d@),
        }
    }
}

/// Whether the table has the kind.
pub open spec fn known_kind(kind: u16) -> bool {
    kind <= RTAX_FASTOPEN_NO_COOKIE
}

impl MetricsView {
    /// The kind that the attribute is written under.
    pub open spec fn kind(self) -> u16 {
        match self {
            MetricsView::Unspec(_) => RTAX_UNSPEC,
            MetricsView::Lock(_) => RTAX_LOCK,
            MetricsView::Mtu(_) => RTAX_MTU,
            MetricsView::Window(_) => RTAX_WINDOW,
            MetricsView::Rtt(_) => RTAX_RTT,
            MetricsView::RttVar(_) => RTAX_RTTVAR,
            MetricsView::SsThresh(_) => RTAX_SSTHRESH,
            MetricsView::Cwnd(_) => RTAX_CWND,
            MetricsView::Advmss(_) => RTAX_ADVMSS,
            MetricsView::Reordering(_) => RTAX_REORDERING,
            MetricsView::Hoplimit(_) => RTAX_HOPLIMIT,
            MetricsView::InitCwnd(_) => RTAX_INITCWND,
            MetricsView::Features(_) => RTAX_FEATURES,
            MetricsView::RtoMin(_) => RTAX_RTO_MIN,
            MetricsView::InitRwnd(_) => RTAX_INITRWND,
            MetricsView::QuickAck(_) => RTAX_QUICKACK,
            MetricsView::CcAlgo(_) => RTAX_CC_ALGO,
            MetricsView::FastopenNoCookie(_) => RTAX_FASTOPEN_NO_COOKIE,
            MetricsView::Other(r) => r.kind,
        }
    }

    /// The bytes of the value.
    pub open spec fn value(self) -> Seq<u8> {
        match self {
            MetricsView::Unspec(b) => b,
            MetricsView::Lock(x)
            | MetricsView::Mtu(x)
            | MetricsView::Window(x)
            | MetricsView::Rtt(x)
            | MetricsView::RttVar(x)
            | MetricsView::SsThresh(x)
            | MetricsView::Cwnd(x)
            | MetricsView::Advmss(x)
            | MetricsView::Reordering(x)
            | MetricsView::Hoplimit(x)
            | MetricsView::InitCwnd(x)
            | MetricsView::Features(x)
            | MetricsView::RtoMin(x)
            | MetricsView::InitRwnd(x)
            | MetricsView::QuickAck(x)
            | MetricsView::CcAlgo(x)
            | MetricsView::FastopenNoCookie(x) => native_u32_bytes(x),
            MetricsView::Other(r) => r.value,
        }
    }

    /// Whether the attribute can be written: the length field can hold the
    /// length of its value.
    pub open spec fn emittable(self) -> bool {
        match self {
            _ => self.value().len() <= NLA_MAX_VALUE_LEN,
        }
    }

    /// Whether decoding can give the attribute: `Other` holds no kind that
    /// the table has.
    pub open spec fn canonical(self) -> bool {
        match self {
            MetricsView::Other(r) => !known_kind(r.kind),
            _ => true,
        }
    }
}

/// What a record decodes to as a metric of a route. A metric fails as
/// `Malformed` on a value that is not four bytes. Every other record decodes,
/// the ones whose kind the table lacks to `Other`.
pub open spec fn decoded(r: Record) -> Result<MetricsView, DecodeError> {
    match r.kind {
        RTAX_UNSPEC => Ok(MetricsView::Unspec(r.value)),
        RTAX_LOCK => match u32_value(r.value, "RTAX_LOCK") {
            Ok(x) => Ok(MetricsView::Lock(x)),
            Err(e) => Err(e),
        },
        RTAX_MTU => match u32_value(r.value, "RTAX_MTU") {
            Ok(x) => Ok(MetricsView::Mtu(x)),
            Err(e) => Err(e),
        },
        RTAX_WINDOW => match u32_value(r.value, "RTAX_WINDOW") {
            Ok(x) => Ok(MetricsView::Window(x)),
            Err(e) => Err(e),
        },
        RTAX_RTT => match u32_value(r.value, "RTAX_RTT") {
            Ok(x) => Ok(MetricsView::Rtt(x)),
            Err(e) => Err(e),
        },
        RTAX_RTTVAR => match u32_value(r.value, "RTAX_RTTVAR") {
            Ok(x) => Ok(MetricsView::RttVar(x)),
            Err(e) => Err(e),
        },
        RTAX_SSTHRESH => match u32_value(r.value, "RTAX_SSTHRESH") {
            Ok(x) => Ok(MetricsView::SsThresh(x)),
            Err(e) => Err(e),
        },
        RTAX_CWND => match u32_value(r.value, "RTAX_CWND") {
            Ok(x) => Ok(MetricsView::Cwnd(x)),
            Err(e) => Err(e),
        },
        RTAX_ADVMSS => match u32_value(r.value, "RTAX_ADVMSS") {
            Ok(x) => Ok(MetricsView::Advmss(x)),
            Err(e) => Err(e),
        },
        RTAX_REORDERING => match u32_value(r.value, "RTAX_REORDERING") {
            Ok(x) => Ok(MetricsView::Reordering(x)),
            Err(e) => Err(e),
        },
        RTAX_HOPLIMIT => match u32_value(r.value, "RTAX_HOPLIMIT") {
            Ok(x) => Ok(MetricsView::Hoplimit(x)),
            Err(e) => Err(e),
        },
        RTAX_INITCWND => match u32_value(r.value, "RTAX_INITCWND") {
            Ok(x) => Ok(MetricsView::InitCwnd(x)),
            Err(e) => Err(e),
        },
        RTAX_FEATURES => match u32_value(r.value, "RTAX_FEATURES") {
            Ok(x) => Ok(MetricsView::Features(x)),
            Err(e) => Err(e),
        },
        RTAX_RTO_MIN => match u32_value(r.value, "RTAX_RTO_MIN") {
            Ok(x) => Ok(MetricsView::RtoMin(x)),
            Err(e) => Err(e),
        },
        RTAX_INITRWND => match u32_value(r.value, "RTAX_INITRWND") {
            Ok(x) => Ok(MetricsView::InitRwnd(x)),
            Err(e) => Err(e),
        },
        RTAX_QUICKACK => match u32_value(r.value, "RTAX_QUICKACK") {
            Ok(x) => Ok(MetricsView::QuickAck(x)),
            Err(e) => Err(e),
        },
        RTAX_CC_ALGO => match u32_value(r.value, "RTAX_CC_ALGO") {
            Ok(x) => Ok(MetricsView::CcAlgo(x)),
            Err(e) => Err(e),
        },
        RTAX_FASTOPEN_NO_COOKIE => match u32_value(r.value, "RTAX_FASTOPEN_NO_COOKIE") {
            Ok(x) => Ok(MetricsView::FastopenNoCookie(x)),
            Err(e) => Err(e),
        },
        _ => Ok(MetricsView::Other(r)),
    }
}

impl Nla for Metrics {
    open spec fn record_of(v: MetricsView) -> Record {
        Record { kind: v.kind(), value: v.value() }
    }

    open spec fn emittable(v: MetricsView) -> bool {
        v.emittable()
    }

    proof fn lemma_emittable_fits(v: MetricsView) {
        lemma_value_width(v);
    }

    fn is_emittable(&self) -> (b: bool) {
        proof {
            lemma_value_width(self@);
        }
        match self {
            Metrics::Unspec(b) => b.len() <= NLA_MAX_VALUE_LEN,
            Metrics::Other(d) => d.is_emittable(),
            _ => true,
        }
    }

    fn kind(&self) -> (k: u16) {
        match self {
            Metrics::Unspec(_) => RTAX_UNSPEC,
            Metrics::Lock(_) => RTAX_LOCK,
            Metrics::Mtu(_) => RTAX_MTU,
            Metrics::Window(_) => RTAX_WINDOW,
            Metrics::Rtt(_) => RTAX_RTT,
            Metrics::RttVar(_) => RTAX_RTTVAR,
            Metrics::SsThresh(_) => RTAX_SSTHRESH,
            Metrics::Cwnd(_) => RTAX_CWND,
            Metrics::Advmss(_) => RTAX_ADVMSS,
            Metrics::Reordering(_) => RTAX_REORDERING,
            Metrics::Hoplimit(_) => RTAX_HOPLIMIT,
            Metrics::InitCwnd(_) => RTAX_INITCWND,
            Metrics::Features(_) => RTAX_FEATURES,
            Metrics::RtoMin(_) => RTAX_RTO_MIN,
            Metrics::InitRwnd(_) => RTAX_INITRWND,
            Metrics::QuickAck(_) => RTAX_QUICKACK,
            Metrics::CcAlgo(_) => RTAX_CC_ALGO,
            Metrics::FastopenNoCookie(_) => RTAX_FASTOPEN_NO_COOKIE,
            Metrics::Other(d) => d.kind(),
        }
    }

    fn value_len(&self) -> (n: usize) {
        proof {
            lemma_value_width(self@);
        }
        match self {
            Metrics::Unspec(b) => b.len(),
            Metrics::Lock(_)
            | Metrics::Mtu(_)
            | Metrics::Window(_)
            | Metrics::Rtt(_)
            | Metrics::RttVar(_)
            | Metrics::SsThresh(_)
            | Metrics::Cwnd(_)
            | Metrics::Advmss(_)
            | Metrics::Reordering(_)
            | Metrics::Hoplimit(_)
            | Metrics::InitCwnd(_)
            | Metrics::Features(_)
            | Metrics::RtoMin(_)
            | Metrics::InitRwnd(_)
            | Metrics::QuickAck(_)
            | Metrics::CcAlgo(_)
            | Metrics::FastopenNoCookie(_) => 4,
            Metrics::Other(d) => d.value_len(),
        }
    }

    fn emit_value(&self, buffer: &mut [u8]) {
        proof {
            lemma_value_width(self@);
        }
        match self {
            Metrics::Unspec(b) => copy_bytes(buffer, b.as_slice()),
            Metrics::Lock(x)
            | Metrics::Mtu(x)
            | Metrics::Window(x)
            | Metrics::Rtt(x)
            | Metrics::RttVar(x)
            | Metrics::SsThresh(x)
            | Metrics::Cwnd(x)
            | Metrics::Advmss(x)
            | Metrics::Reordering(x)
            | Metrics::Hoplimit(x)
            | Metrics::InitCwnd(x)
            | Metrics::Features(x)
            | Metrics::RtoMin(x)
            | Metrics::InitRwnd(x)
            | Metrics::QuickAck(x)
            | Metrics::CcAlgo(x)
            | Metrics::FastopenNoCookie(x) => {
                write_u32(buffer, *x);
                assert(buffer@ =~= native_u32_bytes(*x));
            },
            Metrics::Other(d) => d.emit_value(buffer),
        }
    }
}

impl Parseable for Metrics {
    open spec fn parse_spec(r: Record) -> Result<MetricsView, DecodeError> {
        decoded(r)
    }

    fn parse(buf: &NlaBuffer) -> (r: Result<Metrics, DecodeError>) {
        assert(Self::parse_spec(first_record(buf@)) == decoded(first_record(buf@)));
        let payload = buf.value();
        Ok(
            match buf.kind() {
                RTAX_UNSPEC => Metrics::Unspec(slice_to_vec(payload)),
                RTAX_LOCK => Metrics::Lock(parse_u32(payload, "RTAX_LOCK")?),
                RTAX_MTU => Metrics::Mtu(parse_u32(payload, "RTAX_MTU")?),
                RTAX_WINDOW => Metrics::Window(parse_u32(payload, "RTAX_WINDOW")?),
                RTAX_RTT => Metrics::Rtt(parse_u32(payload, "RTAX_RTT")?),
                RTAX_RTTVAR => Metrics::RttVar(parse_u32(payload, "RTAX_RTTVAR")?),
                RTAX_SSTHRESH => Metrics::SsThresh(parse_u32(payload, "RTAX_SSTHRESH")?),
                RTAX_CWND => Metrics::Cwnd(parse_u32(payload, "RTAX_CWND")?),
                RTAX_ADVMSS => Metrics::Advmss(parse_u32(payload, "RTAX_ADVMSS")?),
                RTAX_REORDERING => Metrics::Reordering(parse_u32(payload, "RTAX_REORDERING")?),
                RTAX_HOPLIMIT => Metrics::Hoplimit(parse_u32(payload, "RTAX_HOPLIMIT")?),
                RTAX_INITCWND => Metrics::InitCwnd(parse_u32(payload, "RTAX_INITCWND")?),
                RTAX_FEATURES => Metrics::Features(parse_u32(payload, "RTAX_FEATURES")?),
                RTAX_RTO_MIN => Metrics::RtoMin(parse_u32(payload, "RTAX_RTO_MIN")?),
                RTAX_INITRWND => Metrics::InitRwnd(parse_u32(payload, "RTAX_INITRWND")?),
                RTAX_QUICKACK => Metrics::QuickAck(parse_u32(payload, "RTAX_QUICKACK")?),
                RTAX_CC_ALGO => Metrics::CcAlgo(parse_u32(payload, "RTAX_CC_ALGO")?),
                RTAX_FASTOPEN_NO_COOKIE => {
                    Metrics::FastopenNoCookie(parse_u32(payload, "RTAX_FASTOPEN_NO_COOKIE")?)
                },
                _ => Metrics::Other(DefaultNla::parse(buf)?),
            },
        )
    }
}

/// The value of an attribute that can be written fits the length field:
/// a number takes as many bytes as its type has.
proof fn lemma_value_width(v: MetricsView)
    ensures
        (v is Lock || v is Mtu || v is Window || v is Rtt || v is RttVar || v is SsThresh ||
            v is Cwnd || v is Advmss || v is Reordering || v is Hoplimit || v is InitCwnd ||
            v is Features || v is RtoMin || v is InitRwnd || v is QuickAck || v is CcAlgo ||
            v is FastopenNoCookie) ==> v.value().len() == 4,
        v.emittable() ==> v.value().len() <= NLA_MAX_VALUE_LEN,
{
    match v {
        MetricsView::Lock(x)
        | MetricsView::Mtu(x)
        | MetricsView::Window(x)
        | MetricsView::Rtt(x)
        | MetricsView::RttVar(x)
        | MetricsView::SsThresh(x)
        | MetricsView::Cwnd(x)
        | MetricsView::Advmss(x)
        | MetricsView::Reordering(x)
        | MetricsView::Hoplimit(x)
        | MetricsView::InitCwnd(x)
        | MetricsView::Features(x)
        | MetricsView::RtoMin(x)
        | MetricsView::InitRwnd(x)
        | MetricsView::QuickAck(x)
        | MetricsView::CcAlgo(x)
        | MetricsView::FastopenNoCookie(x) => lemma_u32_round_trip(x, Seq::empty()),
        _ => {},
    }
}

/// Decoding undoes writing: the record that an attribute is written as
/// decodes to that attribute, for every attribute that can be written and
/// that decoding can give.
pub proof fn lemma_round_trip(v: MetricsView)
    requires
        v.emittable(),
        v.canonical(),
    ensures
        decoded(<Metrics as Nla>::record_of(v)) == Ok::<MetricsView, DecodeError>(v),
{
    lemma_value_width(v);
    match v {
        MetricsView::Lock(x)
        | MetricsView::Mtu(x)
        | MetricsView::Window(x)
        | MetricsView::Rtt(x)
        | MetricsView::RttVar(x)
        | MetricsView::SsThresh(x)
        | MetricsView::Cwnd(x)
        | MetricsView::Advmss(x)
        | MetricsView::Reordering(x)
        | MetricsView::Hoplimit(x)
        | MetricsView::InitCwnd(x)
        | MetricsView::Features(x)
        | MetricsView::RtoMin(x)
        | MetricsView::InitRwnd(x)
        | MetricsView::QuickAck(x)
        | MetricsView::CcAlgo(x)
        | MetricsView::FastopenNoCookie(x) => lemma_u32_round_trip(x, Seq::empty()),
        _ => {},
    }
}

/// What a record decodes to is an attribute that decoding can give.
pub proof fn lemma_decoded_canonical(r: Record)
    requires
        decoded(r) is Ok,
    ensures
        decoded(r)->Ok_0.canonical(),
{
}

/// A record of a kind that the table lacks never fails to decode: it is
/// kept in `Other` with its kind and its value, and is written as the same
/// record again.
pub proof fn lemma_unknown_kind(r: Record)
    requires
        !known_kind(r.kind),
    ensures
        decoded(r) == Ok::<MetricsView, DecodeError>(MetricsView::Other(r)),
        <Metrics as Nla>::record_of(MetricsView::Other(r)) == r,
{
}

} // verus!
