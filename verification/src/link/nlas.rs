//! The attributes of a link message.
//!
//! Most kinds carry bytes that the codec hands on as they are. Five carry
//! text, three a byte, eighteen a 32-bit number, one the operational state
//! of the link. Two carry a nested list of attributes of their own
//! vocabulary. What the per-family data holds depends on the address family
//! of the message: a nested list for IPv4, IPv6 and no family, bytes under
//! two different names for the bridge family and for all others. A record
//! of a kind that is not in the table is kept whole in `Other`.
//!
//! The empty text is written as a lone zero byte.

use crate::byte_order::{
    lemma_i32_round_trip, lemma_u32_round_trip, native_i32_bytes, native_u32_bytes, write_i32,
    write_u32,
};
use crate::constants::{
    AF_BRIDGE, AF_INET, AF_INET6, AF_UNSPEC, IFLA_ADDRESS, IFLA_AF_SPEC, IFLA_ALT_IFNAME,
    IFLA_BROADCAST, IFLA_CARRIER, IFLA_CARRIER_CHANGES, IFLA_CARRIER_DOWN_COUNT,
    IFLA_CARRIER_UP_COUNT, IFLA_COST, IFLA_EVENT, IFLA_EXT_MASK, IFLA_GROUP, IFLA_GSO_MAX_SEGS,
    IFLA_GSO_MAX_SIZE, IFLA_IFALIAS, IFLA_IFNAME, IFLA_IF_NETNSID, IFLA_LINK, IFLA_LINKINFO,
    IFLA_LINKMODE, IFLA_LINK_NETNSID, IFLA_MAP, IFLA_MASTER, IFLA_MAX_MTU, IFLA_MIN_MTU, IFLA_MTU,
    IFLA_NET_NS_FD, IFLA_NET_NS_PID, IFLA_NEW_IFINDEX, IFLA_NEW_NETNSID, IFLA_NUM_RX_QUEUES,
    IFLA_NUM_TX_QUEUES, IFLA_NUM_VF, IFLA_OPERSTATE, IFLA_PAD, IFLA_PERM_ADDRESS,
    IFLA_PHYS_PORT_ID, IFLA_PHYS_PORT_NAME, IFLA_PHYS_SWITCH_ID, IFLA_PORT_SELF, IFLA_PRIORITY,
    IFLA_PROMISCUITY, IFLA_PROP_LIST, IFLA_PROTINFO, IFLA_PROTO_DOWN, IFLA_PROTO_DOWN_REASON,
    IFLA_QDISC, IFLA_STATS, IFLA_STATS64, IFLA_TXQLEN, IFLA_UNSPEC, IFLA_VFINFO_LIST,
    IFLA_VF_PORTS, IFLA_WEIGHT, IFLA_WIRELESS, IFLA_XDP,
};
use crate::errors::DecodeError;
use crate::link::af_spec_inet::{self, AfSpecInet, AfSpecInetView};
use crate::link::link_infos::{self, Info, InfoView};
use crate::link::state::{lemma_state_round_trip, State};
use crate::nla::{
    DefaultNla, NLA_MAX_VALUE_LEN, Nla as Attribute, NlaBuffer, Parseable, ParseableParametrized,
    Record, all_emittable, buffer_len_all, checked_buffer_len_all, copy_bytes, emit_all,
    first_record, lemma_parse_written, lemma_parsed_from_records, nlas_bytes, parse_all,
    parse_records, parser_of, result_view, views,
};
use crate::parsers::{
    i32_value, lemma_text_round_trip, parse_i32, parse_string, parse_u32, parse_u8, text_bytes,
    text_value, u32_value, u8_value,
};
use vstd::prelude::*;
use vstd::slice::slice_to_vec;
use vstd::utf8::encode_utf8;

verus! {

/// The bytes of the counters of a link as 32-bit numbers.
pub const LINK_STATS_LEN: usize = 96;

/// The bytes of the counters of a link as 64-bit numbers.
pub const LINK_STATS64_LEN: usize = 192;

/// One attribute of a link message.
#[derive(Debug, PartialEq, Eq, Clone)]
pub enum Nla {
    Unspec(Vec<u8>),
    Cost(Vec<u8>),
    Priority(Vec<u8>),
    Weight(Vec<u8>),
    VfInfoList(Vec<u8>),
    VfPorts(Vec<u8>),
    PortSelf(Vec<u8>),
    PhysPortId(Vec<u8>),
    PhysSwitchId(Vec<u8>),
    Pad(Vec<u8>),
    Xdp(Vec<u8>),
    Event(Vec<u8>),
    NewNetnsId(Vec<u8>),
    IfNetnsId(Vec<u8>),
    CarrierUpCount(Vec<u8>),
    CarrierDownCount(Vec<u8>),
    NewIfIndex(Vec<u8>),
    /// The description of the type of the link: a nested list.
    Info(Vec<Info>),
    Wireless(Vec<u8>),
    ProtoInfo(Vec<u8>),
    /// A list of properties of the device.
    PropList(Vec<u8>),
    /// Why a protocol holds the interface down.
    ProtoDownReason(Vec<u8>),
    /// The hardware address. It is not always a MAC address: a tunnel over
    /// IPv4 has an IPv4 address here.
    Address(Vec<u8>),
    Broadcast(Vec<u8>),
    /// The permanent hardware address of the device.
    PermAddress(Vec<u8>),
    /// The name of the interface.
    IfName(String),
    Qdisc(String),
    IfAlias(String),
    PhysPortName(String),
    /// Another name for the device.
    AltIfName(String),
    Mode(u8),
    Carrier(u8),
    ProtoDown(u8),
    Mtu(u32),
    Link(u32),
    Master(u32),
    TxQueueLen(u32),
    NetNsPid(u32),
    NumVf(u32),
    Group(u32),
    /// A file descriptor that names a network namespace.
    NetNsFd(i32),
    ExtMask(u32),
    Promiscuity(u32),
    NumTxQueues(u32),
    NumRxQueues(u32),
    CarrierChanges(u32),
    GsoMaxSegs(u32),
    GsoMaxSize(u32),
    /// The smallest MTU that the device takes.
    MinMtu(u32),
    /// The largest MTU that the device takes.
    MaxMtu(u32),
    NetnsId(i32),
    OperState(State),
    /// The counters of the link as 32-bit numbers: a structure of
    /// `LINK_STATS_LEN` bytes.
    Stats(Vec<u8>),
    /// The counters of the link as 64-bit numbers: a structure of
    /// `LINK_STATS64_LEN` bytes.
    Stats64(Vec<u8>),
    /// The memory and interrupt settings of the device.
    IfMap(Vec<u8>),
    /// The per-family data of a link, in a message of the family IPv4, IPv6
    /// or none: a nested list.
    AfSpecInet(Vec<AfSpecInet>),
    /// The per-family data of a link, in a message of the bridge family.
    AfSpecBridge(Vec<u8>),
    /// The per-family data of a link, in a message of any other family.
    AfSpecUnknown(Vec<u8>),
    /// A record of a kind that is not in the table, kept as it came.
    Other(DefaultNla),
}

/// What an attribute of a link message holds, as plain values.
pub enum NlaView {
    Unspec(Seq<u8>),
    Cost(Seq<u8>),
    Priority(Seq<u8>),
    Weight(Seq<u8>),
    VfInfoList(Seq<u8>),
    VfPorts(Seq<u8>),
    PortSelf(Seq<u8>),
    PhysPortId(Seq<u8>),
    PhysSwitchId(Seq<u8>),
    Pad(Seq<u8>),
    Xdp(Seq<u8>),
    Event(Seq<u8>),
    NewNetnsId(Seq<u8>),
    IfNetnsId(Seq<u8>),
    CarrierUpCount(Seq<u8>),
    CarrierDownCount(Seq<u8>),
    NewIfIndex(Seq<u8>),
    Info(Seq<InfoView>),
    Wireless(Seq<u8>),
    ProtoInfo(Seq<u8>),
    PropList(Seq<u8>),
    ProtoDownReason(Seq<u8>),
    Address(Seq<u8>),
    Broadcast(Seq<u8>),
    PermAddress(Seq<u8>),
    IfName(Seq<char>),
    Qdisc(Seq<char>),
    IfAlias(Seq<char>),
    PhysPortName(Seq<char>),
    AltIfName(Seq<char>),
    Mode(u8),
    Carrier(u8),
    ProtoDown(u8),
    Mtu(u32),
    Link(u32),
    Master(u32),
    TxQueueLen(u32),
    NetNsPid(u32),
    NumVf(u32),
    Group(u32),
    NetNsFd(i32),
    ExtMask(u32),
    Promiscuity(u32),
    NumTxQueues(u32),
    NumRxQueues(u32),
    CarrierChanges(u32),
    GsoMaxSegs(u32),
    GsoMaxSize(u32),
    MinMtu(u32),
    MaxMtu(u32),
    NetnsId(i32),
    OperState(State),
    Stats(Seq<u8>),
    Stats64(Seq<u8>),
    IfMap(Seq<u8>),
    AfSpecInet(Seq<AfSpecInetView>),
    AfSpecBridge(Seq<u8>),
    AfSpecUnknown(Seq<u8>),
    Other(Record),
}

impl View for Nla {
    type V = NlaView;

    open spec fn view(&self) -> NlaView {
        match self {
            Nla::Unspec(b) => NlaView::Unspec(b@),
            Nla::Cost(b) => NlaView::Cost(b@),
            Nla::Priority(b) => NlaView::Priority(b@),
            Nla::Weight(b) => NlaView::Weight(b@),
            Nla::VfInfoList(b) => NlaView::VfInfoList(b@),
            Nla::VfPorts(b) => NlaView::VfPorts(b@),
            Nla::PortSelf(b) => NlaView::PortSelf(b@),
            Nla::PhysPortId(b) => NlaView::PhysPortId(b@),
            Nla::PhysSwitchId(b) => NlaView::PhysSwitchId(b@),
            Nla::Pad(b) => NlaView::Pad(b@),
            Nla::Xdp(b) => NlaView::Xdp(b@),
            Nla::Event(b) => NlaView::Event(b@),
            Nla::NewNetnsId(b) => NlaView::NewNetnsId(b@),
            Nla::IfNetnsId(b) => NlaView::IfNetnsId(b@),
            Nla::CarrierUpCount(b) => NlaView::CarrierUpCount(b@),
            Nla::CarrierDownCount(b) => NlaView::CarrierDownCount(b@),
            Nla::NewIfIndex(b) => NlaView::NewIfIndex(b@),
            Nla::Info(l) => NlaView::Info(views(l@)),
            Nla::Wireless(b) => NlaView::Wireless(b@),
            Nla::ProtoInfo(b) => NlaView::ProtoInfo(b@),
            Nla::PropList(b) => NlaView::PropList(b@),
            Nla::ProtoDownReason(b) => NlaView::ProtoDownReason(b@),
            Nla::Address(b) => NlaView::Address(b@),
            Nla::Broadcast(b) => NlaView::Broadcast(b@),
            Nla::PermAddress(b) => NlaView::PermAddress(b@),
            Nla::IfName(b) => NlaView::IfName(b@),
            Nla::Qdisc(b) => NlaView::Qdisc(b@),
            Nla::IfAlias(b) => NlaView::IfAlias(b@),
            Nla::PhysPortName(b) => NlaView::PhysPortName(b@),
            Nla::AltIfName(b) => NlaView::AltIfName(b@),
            Nla::Mode(x) => NlaView::Mode(*x),
            Nla::Carrier(x) => NlaView::Carrier(*x),
            Nla::ProtoDown(x) => NlaView::ProtoDown(*x),
            Nla::Mtu(x) => NlaView::Mtu(*x),
            Nla::Link(x) => NlaView::Link(*x),
            Nla::Master(x) => NlaView::Master(*x),
            Nla::TxQueueLen(x) => NlaView::TxQueueLen(*x),
            Nla::NetNsPid(x) => NlaView::NetNsPid(*x),
            Nla::NumVf(x) => NlaView::NumVf(*x),
            Nla::Group(x) => NlaView::Group(*x),
            Nla::NetNsFd(x) => NlaView::NetNsFd(*x),
            Nla::ExtMask(x) => NlaView::ExtMask(*x),
            Nla::Promiscuity(x) => NlaView::Promiscuity(*x),
            Nla::NumTxQueues(x) => NlaView::NumTxQueues(*x),
            Nla::NumRxQueues(x) => NlaView::NumRxQueues(*x),
            Nla::CarrierChanges(x) => NlaView::CarrierChanges(*x),
            Nla::GsoMaxSegs(x) => NlaView::GsoMaxSegs(*x),
            Nla::GsoMaxSize(x) => NlaView::GsoMaxSize(*x),
            Nla::MinMtu(x) => NlaView::MinMtu(*x),
            Nla::MaxMtu(x) => NlaView::MaxMtu(*x),
            Nla::NetnsId(x) => NlaView::NetnsId(*x),
            Nla::OperState(x) => NlaView::OperState(*x),
            Nla::Stats(b) => NlaView::Stats(b@),
            Nla::Stats64(b) => NlaView::Stats64(b@),
            Nla::IfMap(b) => NlaView::IfMap(b@),
            Nla::AfSpecInet(l) => NlaView::AfSpecInet(views(l@)),
            Nla::AfSpecBridge(b) => NlaView::AfSpecBridge(b@),
            Nla::AfSpecUnknown(b) => NlaView::AfSpecUnknown(b@),
            Nla::Other(d) => NlaView::Other(d@),
        }
    }
}

/// Whether the table has the kind.
pub open spec fn known_kind(kind: u16) -> bool {
    kind <= IFLA_PROTO_DOWN_REASON
}

impl NlaView {
    /// The kind that the attribute is written under.
    pub open spec fn kind(self) -> u16 {
        match self {
            NlaView::Unspec(_) => IFLA_UNSPEC,
            NlaView::Cost(_) => IFLA_COST,
            NlaView::Priority(_) => IFLA_PRIORITY,
            NlaView::Weight(_) => IFLA_WEIGHT,
            NlaView::VfInfoList(_) => IFLA_VFINFO_LIST,
            NlaView::VfPorts(_) => IFLA_VF_PORTS,
            NlaView::PortSelf(_) => IFLA_PORT_SELF,
            NlaView::PhysPortId(_) => IFLA_PHYS_PORT_ID,
            NlaView::PhysSwitchId(_) => IFLA_PHYS_SWITCH_ID,
            NlaView::Pad(_) => IFLA_PAD,
            NlaView::Xdp(_) => IFLA_XDP,
            NlaView::Event(_) => IFLA_EVENT,
            NlaView::NewNetnsId(_) => IFLA_NEW_NETNSID,
            NlaView::IfNetnsId(_) => IFLA_IF_NETNSID,
            NlaView::CarrierUpCount(_) => IFLA_CARRIER_UP_COUNT,
            NlaView::CarrierDownCount(_) => IFLA_CARRIER_DOWN_COUNT,
            NlaView::NewIfIndex(_) => IFLA_NEW_IFINDEX,
            NlaView::Info(_) => IFLA_LINKINFO,
            NlaView::Wireless(_) => IFLA_WIRELESS,
            NlaView::ProtoInfo(_) => IFLA_PROTINFO,
            NlaView::PropList(_) => IFLA_PROP_LIST,
            NlaView::ProtoDownReason(_) => IFLA_PROTO_DOWN_REASON,
            NlaView::Address(_) => IFLA_ADDRESS,
            NlaView::Broadcast(_) => IFLA_BROADCAST,
            NlaView::PermAddress(_) => IFLA_PERM_ADDRESS,
            NlaView::IfName(_) => IFLA_IFNAME,
            NlaView::Qdisc(_) => IFLA_QDISC,
            NlaView::IfAlias(_) => IFLA_IFALIAS,
            NlaView::PhysPortName(_) => IFLA_PHYS_PORT_NAME,
            NlaView::AltIfName(_) => IFLA_ALT_IFNAME,
            NlaView::Mode(_) => IFLA_LINKMODE,
            NlaView::Carrier(_) => IFLA_CARRIER,
            NlaView::ProtoDown(_) => IFLA_PROTO_DOWN,
            NlaView::Mtu(_) => IFLA_MTU,
            NlaView::Link(_) => IFLA_LINK,
            NlaView::Master(_) => IFLA_MASTER,
            NlaView::TxQueueLen(_) => IFLA_TXQLEN,
            NlaView::NetNsPid(_) => IFLA_NET_NS_PID,
            NlaView::NumVf(_) => IFLA_NUM_VF,
            NlaView::Group(_) => IFLA_GROUP,
            NlaView::NetNsFd(_) => IFLA_NET_NS_FD,
            NlaView::ExtMask(_) => IFLA_EXT_MASK,
            NlaView::Promiscuity(_) => IFLA_PROMISCUITY,
            NlaView::NumTxQueues(_) => IFLA_NUM_TX_QUEUES,
            NlaView::NumRxQueues(_) => IFLA_NUM_RX_QUEUES,
            NlaView::CarrierChanges(_) => IFLA_CARRIER_CHANGES,
            NlaView::GsoMaxSegs(_) => IFLA_GSO_MAX_SEGS,
            NlaView::GsoMaxSize(_) => IFLA_GSO_MAX_SIZE,
            NlaView::MinMtu(_) => IFLA_MIN_MTU,
            NlaView::MaxMtu(_) => IFLA_MAX_MTU,
            NlaView::NetnsId(_) => IFLA_LINK_NETNSID,
            NlaView::OperState(_) => IFLA_OPERSTATE,
            NlaView::Stats(_) => IFLA_STATS,
            NlaView::Stats64(_) => IFLA_STATS64,
            NlaView::IfMap(_) => IFLA_MAP,
            NlaView::AfSpecInet(_) => IFLA_AF_SPEC,
            NlaView::AfSpecBridge(_) => IFLA_AF_SPEC,
            NlaView::AfSpecUnknown(_) => IFLA_AF_SPEC,
            NlaView::Other(r) => r.kind,
        }
    }

    /// The bytes of the value.
    pub open spec fn value(self) -> Seq<u8> {
        match self {
            NlaView::Unspec(b)
            | NlaView::Cost(b)
            | NlaView::Priority(b)
            | NlaView::Weight(b)
            | NlaView::VfInfoList(b)
            | NlaView::VfPorts(b)
            | NlaView::PortSelf(b)
            | NlaView::PhysPortId(b)
            | NlaView::PhysSwitchId(b)
            | NlaView::Pad(b)
            | NlaView::Xdp(b)
            | NlaView::Event(b)
            | NlaView::NewNetnsId(b)
            | NlaView::IfNetnsId(b)
            | NlaView::CarrierUpCount(b)
            | NlaView::CarrierDownCount(b)
            | NlaView::NewIfIndex(b)
            | NlaView::Wireless(b)
            | NlaView::ProtoInfo(b)
            | NlaView::PropList(b)
            | NlaView::ProtoDownReason(b)
            | NlaView::Address(b)
            | NlaView::Broadcast(b)
            | NlaView::PermAddress(b)
            | NlaView::Stats(b)
            | NlaView::Stats64(b)
            | NlaView::IfMap(b)
            | NlaView::AfSpecBridge(b)
            | NlaView::AfSpecUnknown(b) => b,
            NlaView::IfName(s)
            | NlaView::Qdisc(s)
            | NlaView::IfAlias(s)
            | NlaView::PhysPortName(s)
            | NlaView::AltIfName(s) => text_bytes(s),
            NlaView::Mode(x)
            | NlaView::Carrier(x)
            | NlaView::ProtoDown(x) => seq![x],
            NlaView::OperState(s) => seq![s.code()],
            NlaView::Mtu(x)
            | NlaView::Link(x)
            | NlaView::Master(x)
            | NlaView::TxQueueLen(x)
            | NlaView::NetNsPid(x)
            | NlaView::NumVf(x)
            | NlaView::Group(x)
            | NlaView::ExtMask(x)
            | NlaView::Promiscuity(x)
            | NlaView::NumTxQueues(x)
            | NlaView::NumRxQueues(x)
            | NlaView::CarrierChanges(x)
            | NlaView::GsoMaxSegs(x)
            | NlaView::GsoMaxSize(x)
            | NlaView::MinMtu(x)
            | NlaView::MaxMtu(x) => native_u32_bytes(x),
            NlaView::NetNsFd(x)
            | NlaView::NetnsId(x) => native_i32_bytes(x),
            NlaView::Info(l) => nlas_bytes::<Info>(l),
            NlaView::AfSpecInet(l) => nlas_bytes::<AfSpecInet>(l),
            NlaView::Other(r) => r.value,
        }
    }

    /// Whether the attribute can be written: the length field can hold the
    /// length of its value, a structure of a fixed size has that size, and
    /// each nested attribute can be written.
    pub open spec fn emittable(self) -> bool {
        match self {
            NlaView::Stats(b) => b.len() == LINK_STATS_LEN,
            NlaView::Stats64(b) => b.len() == LINK_STATS64_LEN,
            NlaView::Info(l) => all_emittable::<Info>(l) && nlas_bytes::<Info>(
                l,
            ).len() <= NLA_MAX_VALUE_LEN,
            NlaView::AfSpecInet(l) => all_emittable::<AfSpecInet>(l) && nlas_bytes::<AfSpecInet>(
                l,
            ).len() <= NLA_MAX_VALUE_LEN,
            _ => self.value().len() <= NLA_MAX_VALUE_LEN,
        }
    }

    /// Whether decoding can give the attribute under the address family
    /// `family`: the per-family data is of the variant that the family asks
    /// for, decoding can give each attribute of a nested list, the state is
    /// one that a byte stands for, and `Other` holds no kind that the table
    /// has.
    pub open spec fn canonical(self, family: u16) -> bool {
        match self {
            NlaView::Info(l) => forall|i: int| 0 <= i < l.len() ==> (#[trigger] l[i]).canonical(),
            NlaView::OperState(s) => s.canonical(),
            NlaView::AfSpecInet(l) => {
                &&& (family == AF_INET || family == AF_INET6 || family == AF_UNSPEC)
                &&& forall|i: int| 0 <= i < l.len() ==> (#[trigger] l[i]).canonical()
            },
            NlaView::AfSpecBridge(_) => family == AF_BRIDGE,
            NlaView::AfSpecUnknown(_) => {
                &&& family != AF_INET
                &&& family != AF_INET6
                &&& family != AF_UNSPEC
                &&& family != AF_BRIDGE
            },
            NlaView::Other(r) => !known_kind(r.kind),
            _ => true,
        }
    }
}

/// What a record decodes to as an attribute of a link message of the address
/// family `family`. A kind with text or with a number fails as `Malformed` on
/// a value of another shape. A failure in a nested list is reported within
/// the kind of the list. Every other record decodes, the ones whose kind the
/// table lacks to `Other`.
pub open spec fn decoded(r: Record, family: u16) -> Result<NlaView, DecodeError> {
    match r.kind {
        IFLA_UNSPEC => Ok(NlaView::Unspec(r.value)),
        IFLA_COST => Ok(NlaView::Cost(r.value)),
        IFLA_PRIORITY => Ok(NlaView::Priority(r.value)),
        IFLA_WEIGHT => Ok(NlaView::Weight(r.value)),
        IFLA_VFINFO_LIST => Ok(NlaView::VfInfoList(r.value)),
        IFLA_VF_PORTS => Ok(NlaView::VfPorts(r.value)),
        IFLA_PORT_SELF => Ok(NlaView::PortSelf(r.value)),
        IFLA_PHYS_PORT_ID => Ok(NlaView::PhysPortId(r.value)),
        IFLA_PHYS_SWITCH_ID => Ok(NlaView::PhysSwitchId(r.value)),
        IFLA_PAD => Ok(NlaView::Pad(r.value)),
        IFLA_XDP => Ok(NlaView::Xdp(r.value)),
        IFLA_EVENT => Ok(NlaView::Event(r.value)),
        IFLA_NEW_NETNSID => Ok(NlaView::NewNetnsId(r.value)),
        IFLA_IF_NETNSID => Ok(NlaView::IfNetnsId(r.value)),
        IFLA_CARRIER_UP_COUNT => Ok(NlaView::CarrierUpCount(r.value)),
        IFLA_CARRIER_DOWN_COUNT => Ok(NlaView::CarrierDownCount(r.value)),
        IFLA_NEW_IFINDEX => Ok(NlaView::NewIfIndex(r.value)),
        IFLA_LINKINFO => match parse_records(r.value, parser_of::<Info>()) {
            Ok(l) => Ok(NlaView::Info(l)),
            Err(e) => Err(e.within("IFLA_LINKINFO")),
        },
        IFLA_WIRELESS => Ok(NlaView::Wireless(r.value)),
        IFLA_PROTINFO => Ok(NlaView::ProtoInfo(r.value)),
        IFLA_PROP_LIST => Ok(NlaView::PropList(r.value)),
        IFLA_PROTO_DOWN_REASON => Ok(NlaView::ProtoDownReason(r.value)),
        IFLA_ADDRESS => Ok(NlaView::Address(r.value)),
        IFLA_BROADCAST => Ok(NlaView::Broadcast(r.value)),
        IFLA_PERM_ADDRESS => Ok(NlaView::PermAddress(r.value)),
        IFLA_IFNAME => match text_value(r.value, "IFLA_IFNAME") {
            Ok(x) => Ok(NlaView::IfName(x)),
            Err(e) => Err(e),
        },
        IFLA_QDISC => match text_value(r.value, "IFLA_QDISC") {
            Ok(x) => Ok(NlaView::Qdisc(x)),
            Err(e) => Err(e),
        },
        IFLA_IFALIAS => match text_value(r.value, "IFLA_IFALIAS") {
            Ok(x) => Ok(NlaView::IfAlias(x)),
            Err(e) => Err(e),
        },
        IFLA_PHYS_PORT_NAME => match text_value(r.value, "IFLA_PHYS_PORT_NAME") {
            Ok(x) => Ok(NlaView::PhysPortName(x)),
            Err(e) => Err(e),
        },
        IFLA_ALT_IFNAME => match text_value(r.value, "IFLA_ALT_IFNAME") {
            Ok(x) => Ok(NlaView::AltIfName(x)),
            Err(e) => Err(e),
        },
        IFLA_LINKMODE => match u8_value(r.value, "IFLA_LINKMODE") {
            Ok(x) => Ok(NlaView::Mode(x)),
            Err(e) => Err(e),
        },
        IFLA_CARRIER => match u8_value(r.value, "IFLA_CARRIER") {
            Ok(x) => Ok(NlaView::Carrier(x)),
            Err(e) => Err(e),
        },
        IFLA_PROTO_DOWN => match u8_value(r.value, "IFLA_PROTO_DOWN") {
            Ok(x) => Ok(NlaView::ProtoDown(x)),
            Err(e) => Err(e),
        },
        IFLA_MTU => match u32_value(r.value, "IFLA_MTU") {
            Ok(x) => Ok(NlaView::Mtu(x)),
            Err(e) => Err(e),
        },
        IFLA_LINK => match u32_value(r.value, "IFLA_LINK") {
            Ok(x) => Ok(NlaView::Link(x)),
            Err(e) => Err(e),
        },
        IFLA_MASTER => match u32_value(r.value, "IFLA_MASTER") {
            Ok(x) => Ok(NlaView::Master(x)),
            Err(e) => Err(e),
        },
        IFLA_TXQLEN => match u32_value(r.value, "IFLA_TXQLEN") {
            Ok(x) => Ok(NlaView::TxQueueLen(x)),
            Err(e) => Err(e),
        },
        IFLA_NET_NS_PID => match u32_value(r.value, "IFLA_NET_NS_PID") {
            Ok(x) => Ok(NlaView::NetNsPid(x)),
            Err(e) => Err(e),
        },
        IFLA_NUM_VF => match u32_value(r.value, "IFLA_NUM_VF") {
            Ok(x) => Ok(NlaView::NumVf(x)),
            Err(e) => Err(e),
        },
        IFLA_GROUP => match u32_value(r.value, "IFLA_GROUP") {
            Ok(x) => Ok(NlaView::Group(x)),
            Err(e) => Err(e),
        },
        IFLA_NET_NS_FD => match i32_value(r.value, "IFLA_NET_NS_FD") {
            Ok(x) => Ok(NlaView::NetNsFd(x)),
            Err(e) => Err(e),
        },
        IFLA_EXT_MASK => match u32_value(r.value, "IFLA_EXT_MASK") {
            Ok(x) => Ok(NlaView::ExtMask(x)),
            Err(e) => Err(e),
        },
        IFLA_PROMISCUITY => match u32_value(r.value, "IFLA_PROMISCUITY") {
            Ok(x) => Ok(NlaView::Promiscuity(x)),
            Err(e) => Err(e),
        },
        IFLA_NUM_TX_QUEUES => match u32_value(r.value, "IFLA_NUM_TX_QUEUES") {
            Ok(x) => Ok(NlaView::NumTxQueues(x)),
            Err(e) => Err(e),
        },
        IFLA_NUM_RX_QUEUES => match u32_value(r.value, "IFLA_NUM_RX_QUEUES") {
            Ok(x) => Ok(NlaView::NumRxQueues(x)),
            Err(e) => Err(e),
        },
        IFLA_CARRIER_CHANGES => match u32_value(r.value, "IFLA_CARRIER_CHANGES") {
            Ok(x) => Ok(NlaView::CarrierChanges(x)),
            Err(e) => Err(e),
        },
        IFLA_GSO_MAX_SEGS => match u32_value(r.value, "IFLA_GSO_MAX_SEGS") {
            Ok(x) => Ok(NlaView::GsoMaxSegs(x)),
            Err(e) => Err(e),
        },
        IFLA_GSO_MAX_SIZE => match u32_value(r.value, "IFLA_GSO_MAX_SIZE") {
            Ok(x) => Ok(NlaView::GsoMaxSize(x)),
            Err(e) => Err(e),
        },
        IFLA_MIN_MTU => match u32_value(r.value, "IFLA_MIN_MTU") {
            Ok(x) => Ok(NlaView::MinMtu(x)),
            Err(e) => Err(e),
        },
        IFLA_MAX_MTU => match u32_value(r.value, "IFLA_MAX_MTU") {
            Ok(x) => Ok(NlaView::MaxMtu(x)),
            Err(e) => Err(e),
        },
        IFLA_LINK_NETNSID => match i32_value(r.value, "IFLA_LINK_NETNSID") {
            Ok(x) => Ok(NlaView::NetnsId(x)),
            Err(e) => Err(e),
        },
        IFLA_OPERSTATE => match u8_value(r.value, "IFLA_OPERSTATE") {
            Ok(x) => Ok(NlaView::OperState(State::of_code(x))),
            Err(e) => Err(e),
        },
        IFLA_STATS => Ok(NlaView::Stats(r.value)),
        IFLA_STATS64 => Ok(NlaView::Stats64(r.value)),
        IFLA_MAP => Ok(NlaView::IfMap(r.value)),
        IFLA_AF_SPEC => decoded_af_spec(r.value, family),
        _ => Ok(NlaView::Other(r)),
    }
}

/// What the per-family data of a link decodes to under the address family
/// `family`: a nested list of the data of each family for IPv4, IPv6 and no
/// family, where a failure in the list is reported within the kind; the bytes
/// as they came for the bridge family; and the same bytes under another name
/// for every other family.
pub open spec fn decoded_af_spec(value: Seq<u8>, family: u16) -> Result<NlaView, DecodeError> {
    match family {
        AF_INET | AF_INET6 | AF_UNSPEC => match parse_records(value, parser_of::<AfSpecInet>()) {
            Ok(l) => Ok(NlaView::AfSpecInet(l)),
            Err(e) => Err(e.within("IFLA_AF_SPEC")),
        },
        AF_BRIDGE => Ok(NlaView::AfSpecBridge(value)),
        _ => Ok(NlaView::AfSpecUnknown(value)),
    }
}

impl Attribute for Nla {
    open spec fn record_of(v: NlaView) -> Record {
        Record { kind: v.kind(), value: v.value() }
    }

    open spec fn emittable(v: NlaView) -> bool {
        v.emittable()
    }

    proof fn lemma_emittable_fits(v: NlaView) {
        lemma_value_width(v);
    }

    fn is_emittable(&self) -> (b: bool) {
        proof {
            lemma_value_width(self@);
        }
        match self {
            Nla::Unspec(b)
            | Nla::Cost(b)
            | Nla::Priority(b)
            | Nla::Weight(b)
            | Nla::VfInfoList(b)
            | Nla::VfPorts(b)
            | Nla::PortSelf(b)
            | Nla::PhysPortId(b)
            | Nla::PhysSwitchId(b)
            | Nla::Pad(b)
            | Nla::Xdp(b)
            | Nla::Event(b)
            | Nla::NewNetnsId(b)
            | Nla::IfNetnsId(b)
            | Nla::CarrierUpCount(b)
            | Nla::CarrierDownCount(b)
            | Nla::NewIfIndex(b)
            | Nla::Wireless(b)
            | Nla::ProtoInfo(b)
            | Nla::PropList(b)
            | Nla::ProtoDownReason(b)
            | Nla::Address(b)
            | Nla::Broadcast(b)
            | Nla::PermAddress(b)
            | Nla::IfMap(b)
            | Nla::AfSpecBridge(b)
            | Nla::AfSpecUnknown(b) => b.len() <= NLA_MAX_VALUE_LEN,
            Nla::Stats(b) => b.len() == LINK_STATS_LEN,
            Nla::Stats64(b) => b.len() == LINK_STATS64_LEN,
            Nla::IfName(s)
            | Nla::Qdisc(s)
            | Nla::IfAlias(s)
            | Nla::PhysPortName(s)
            | Nla::AltIfName(s) => s.as_str().as_bytes().len() < NLA_MAX_VALUE_LEN,
            Nla::Info(l) => checked_buffer_len_all(
                l.as_slice(),
                NLA_MAX_VALUE_LEN,
            ).is_some(),
            Nla::AfSpecInet(l) => checked_buffer_len_all(
                l.as_slice(),
                NLA_MAX_VALUE_LEN,
            ).is_some(),
            Nla::Other(d) => d.is_emittable(),
            _ => true,
        }
    }

    fn kind(&self) -> (k: u16) {
        match self {
            Nla::Unspec(_) => IFLA_UNSPEC,
            Nla::Cost(_) => IFLA_COST,
            Nla::Priority(_) => IFLA_PRIORITY,
            Nla::Weight(_) => IFLA_WEIGHT,
            Nla::VfInfoList(_) => IFLA_VFINFO_LIST,
            Nla::VfPorts(_) => IFLA_VF_PORTS,
            Nla::PortSelf(_) => IFLA_PORT_SELF,
            Nla::PhysPortId(_) => IFLA_PHYS_PORT_ID,
            Nla::PhysSwitchId(_) => IFLA_PHYS_SWITCH_ID,
            Nla::Pad(_) => IFLA_PAD,
            Nla::Xdp(_) => IFLA_XDP,
            Nla::Event(_) => IFLA_EVENT,
            Nla::NewNetnsId(_) => IFLA_NEW_NETNSID,
            Nla::IfNetnsId(_) => IFLA_IF_NETNSID,
            Nla::CarrierUpCount(_) => IFLA_CARRIER_UP_COUNT,
            Nla::CarrierDownCount(_) => IFLA_CARRIER_DOWN_COUNT,
            Nla::NewIfIndex(_) => IFLA_NEW_IFINDEX,
            Nla::Info(_) => IFLA_LINKINFO,
            Nla::Wireless(_) => IFLA_WIRELESS,
            Nla::ProtoInfo(_) => IFLA_PROTINFO,
            Nla::PropList(_) => IFLA_PROP_LIST,
            Nla::ProtoDownReason(_) => IFLA_PROTO_DOWN_REASON,
            Nla::Address(_) => IFLA_ADDRESS,
            Nla::Broadcast(_) => IFLA_BROADCAST,
            Nla::PermAddress(_) => IFLA_PERM_ADDRESS,
            Nla::IfName(_) => IFLA_IFNAME,
            Nla::Qdisc(_) => IFLA_QDISC,
            Nla::IfAlias(_) => IFLA_IFALIAS,
            Nla::PhysPortName(_) => IFLA_PHYS_PORT_NAME,
            Nla::AltIfName(_) => IFLA_ALT_IFNAME,
            Nla::Mode(_) => IFLA_LINKMODE,
            Nla::Carrier(_) => IFLA_CARRIER,
            Nla::ProtoDown(_) => IFLA_PROTO_DOWN,
            Nla::Mtu(_) => IFLA_MTU,
            Nla::Link(_) => IFLA_LINK,
            Nla::Master(_) => IFLA_MASTER,
            Nla::TxQueueLen(_) => IFLA_TXQLEN,
            Nla::NetNsPid(_) => IFLA_NET_NS_PID,
            Nla::NumVf(_) => IFLA_NUM_VF,
            Nla::Group(_) => IFLA_GROUP,
            Nla::NetNsFd(_) => IFLA_NET_NS_FD,
            Nla::ExtMask(_) => IFLA_EXT_MASK,
            Nla::Promiscuity(_) => IFLA_PROMISCUITY,
            Nla::NumTxQueues(_) => IFLA_NUM_TX_QUEUES,
            Nla::NumRxQueues(_) => IFLA_NUM_RX_QUEUES,
            Nla::CarrierChanges(_) => IFLA_CARRIER_CHANGES,
            Nla::GsoMaxSegs(_) => IFLA_GSO_MAX_SEGS,
            Nla::GsoMaxSize(_) => IFLA_GSO_MAX_SIZE,
            Nla::MinMtu(_) => IFLA_MIN_MTU,
            Nla::MaxMtu(_) => IFLA_MAX_MTU,
            Nla::NetnsId(_) => IFLA_LINK_NETNSID,
            Nla::OperState(_) => IFLA_OPERSTATE,
            Nla::Stats(_) => IFLA_STATS,
            Nla::Stats64(_) => IFLA_STATS64,
            Nla::IfMap(_) => IFLA_MAP,
            Nla::AfSpecInet(_) => IFLA_AF_SPEC,
            Nla::AfSpecBridge(_) => IFLA_AF_SPEC,
            Nla::AfSpecUnknown(_) => IFLA_AF_SPEC,
            Nla::Other(d) => d.kind(),
        }
    }

    fn value_len(&self) -> (n: usize) {
        proof {
            lemma_value_width(self@);
        }
        match self {
            Nla::Unspec(b)
            | Nla::Cost(b)
            | Nla::Priority(b)
            | Nla::Weight(b)
            | Nla::VfInfoList(b)
            | Nla::VfPorts(b)
            | Nla::PortSelf(b)
            | Nla::PhysPortId(b)
            | Nla::PhysSwitchId(b)
            | Nla::Pad(b)
            | Nla::Xdp(b)
            | Nla::Event(b)
            | Nla::NewNetnsId(b)
            | Nla::IfNetnsId(b)
            | Nla::CarrierUpCount(b)
            | Nla::CarrierDownCount(b)
            | Nla::NewIfIndex(b)
            | Nla::Wireless(b)
            | Nla::ProtoInfo(b)
            | Nla::PropList(b)
            | Nla::ProtoDownReason(b)
            | Nla::Address(b)
            | Nla::Broadcast(b)
            | Nla::PermAddress(b)
            | Nla::Stats(b)
            | Nla::Stats64(b)
            | Nla::IfMap(b)
            | Nla::AfSpecBridge(b)
            | Nla::AfSpecUnknown(b) => b.len(),
            Nla::IfName(s)
            | Nla::Qdisc(s)
            | Nla::IfAlias(s)
            | Nla::PhysPortName(s)
            | Nla::AltIfName(s) => s.as_str().as_bytes().len() + 1,
            Nla::Mode(_)
            | Nla::Carrier(_)
            | Nla::ProtoDown(_)
            | Nla::OperState(_) => 1,
            Nla::Mtu(_)
            | Nla::Link(_)
            | Nla::Master(_)
            | Nla::TxQueueLen(_)
            | Nla::NetNsPid(_)
            | Nla::NumVf(_)
            | Nla::Group(_)
            | Nla::NetNsFd(_)
            | Nla::ExtMask(_)
            | Nla::Promiscuity(_)
            | Nla::NumTxQueues(_)
            | Nla::NumRxQueues(_)
            | Nla::CarrierChanges(_)
            | Nla::GsoMaxSegs(_)
            | Nla::GsoMaxSize(_)
            | Nla::MinMtu(_)
            | Nla::MaxMtu(_)
            | Nla::NetnsId(_) => 4,
            Nla::Info(l) => buffer_len_all(l.as_slice()),
            Nla::AfSpecInet(l) => buffer_len_all(l.as_slice()),
            Nla::Other(d) => d.value_len(),
        }
    }

    fn emit_value(&self, buffer: &mut [u8]) {
        proof {
            lemma_value_width(self@);
        }
        match self {
            Nla::Unspec(b)
            | Nla::Cost(b)
            | Nla::Priority(b)
            | Nla::Weight(b)
            | Nla::VfInfoList(b)
            | Nla::VfPorts(b)
            | Nla::PortSelf(b)
            | Nla::PhysPortId(b)
            | Nla::PhysSwitchId(b)
            | Nla::Pad(b)
            | Nla::Xdp(b)
            | Nla::Event(b)
            | Nla::NewNetnsId(b)
            | Nla::IfNetnsId(b)
            | Nla::CarrierUpCount(b)
            | Nla::CarrierDownCount(b)
            | Nla::NewIfIndex(b)
            | Nla::Wireless(b)
            | Nla::ProtoInfo(b)
            | Nla::PropList(b)
            | Nla::ProtoDownReason(b)
            | Nla::Address(b)
            | Nla::Broadcast(b)
            | Nla::PermAddress(b)
            | Nla::Stats(b)
            | Nla::Stats64(b)
            | Nla::IfMap(b)
            | Nla::AfSpecBridge(b)
            | Nla::AfSpecUnknown(b) => copy_bytes(buffer, b.as_slice()),
            Nla::IfName(s)
            | Nla::Qdisc(s)
            | Nla::IfAlias(s)
            | Nla::PhysPortName(s)
            | Nla::AltIfName(s) => {
                let bytes = s.as_str().as_bytes();
                let (text, end) = buffer.split_at_mut(bytes.len());
                copy_bytes(text, bytes);
                end[0] = 0;
                assert(buffer@ =~= text_bytes(s@));
            },
            Nla::Mode(x)
            | Nla::Carrier(x)
            | Nla::ProtoDown(x) => {
                buffer[0] = *x;
                assert(buffer@ =~= seq![*x]);
            },
            Nla::OperState(s) => {
                buffer[0] = s.to_code();
                assert(buffer@ =~= seq![s.code()]);
            },
            Nla::Mtu(x)
            | Nla::Link(x)
            | Nla::Master(x)
            | Nla::TxQueueLen(x)
            | Nla::NetNsPid(x)
            | Nla::NumVf(x)
            | Nla::Group(x)
            | Nla::ExtMask(x)
            | Nla::Promiscuity(x)
            | Nla::NumTxQueues(x)
            | Nla::NumRxQueues(x)
            | Nla::CarrierChanges(x)
            | Nla::GsoMaxSegs(x)
            | Nla::GsoMaxSize(x)
            | Nla::MinMtu(x)
            | Nla::MaxMtu(x) => {
                write_u32(buffer, *x);
                assert(buffer@ =~= native_u32_bytes(*x));
            },
            Nla::NetNsFd(x)
            | Nla::NetnsId(x) => {
                write_i32(buffer, *x);
                assert(buffer@ =~= native_i32_bytes(*x));
            },
            Nla::Info(l) => {
                emit_all(l.as_slice(), buffer);
                assert(buffer@ =~= nlas_bytes::<Info>(views(l@)));
            },
            Nla::AfSpecInet(l) => {
                emit_all(l.as_slice(), buffer);
                assert(buffer@ =~= nlas_bytes::<AfSpecInet>(views(l@)));
            },
            Nla::Other(d) => d.emit_value(buffer),
        }
    }
}

impl ParseableParametrized<u16> for Nla {
    open spec fn parse_spec_with(r: Record, family: u16) -> Result<NlaView, DecodeError> {
        decoded(r, family)
    }

    fn parse_with_param(buf: &NlaBuffer, family: u16) -> (r: Result<Nla, DecodeError>) {
        assert(Self::parse_spec_with(first_record(buf@), family) == decoded(
            first_record(buf@),
            family,
        ));
        let payload = buf.value();
        Ok(
            match buf.kind() {
                IFLA_UNSPEC => Nla::Unspec(slice_to_vec(payload)),
                IFLA_COST => Nla::Cost(slice_to_vec(payload)),
                IFLA_PRIORITY => Nla::Priority(slice_to_vec(payload)),
                IFLA_WEIGHT => Nla::Weight(slice_to_vec(payload)),
                IFLA_VFINFO_LIST => Nla::VfInfoList(slice_to_vec(payload)),
                IFLA_VF_PORTS => Nla::VfPorts(slice_to_vec(payload)),
                IFLA_PORT_SELF => Nla::PortSelf(slice_to_vec(payload)),
                IFLA_PHYS_PORT_ID => Nla::PhysPortId(slice_to_vec(payload)),
                IFLA_PHYS_SWITCH_ID => Nla::PhysSwitchId(slice_to_vec(payload)),
                IFLA_PAD => Nla::Pad(slice_to_vec(payload)),
                IFLA_XDP => Nla::Xdp(slice_to_vec(payload)),
                IFLA_EVENT => Nla::Event(slice_to_vec(payload)),
                IFLA_NEW_NETNSID => Nla::NewNetnsId(slice_to_vec(payload)),
                IFLA_IF_NETNSID => Nla::IfNetnsId(slice_to_vec(payload)),
                IFLA_CARRIER_UP_COUNT => Nla::CarrierUpCount(slice_to_vec(payload)),
                IFLA_CARRIER_DOWN_COUNT => Nla::CarrierDownCount(slice_to_vec(payload)),
                IFLA_NEW_IFINDEX => Nla::NewIfIndex(slice_to_vec(payload)),
                IFLA_LINKINFO => match parse_all::<Info>(payload) {
                    Ok(l) => Nla::Info(l),
                    Err(e) => {
                        return Err(e.nested_in("IFLA_LINKINFO"));
                    },
                },
                IFLA_WIRELESS => Nla::Wireless(slice_to_vec(payload)),
                IFLA_PROTINFO => Nla::ProtoInfo(slice_to_vec(payload)),
                IFLA_PROP_LIST => Nla::PropList(slice_to_vec(payload)),
                IFLA_PROTO_DOWN_REASON => Nla::ProtoDownReason(slice_to_vec(payload)),
                IFLA_ADDRESS => Nla::Address(slice_to_vec(payload)),
                IFLA_BROADCAST => Nla::Broadcast(slice_to_vec(payload)),
                IFLA_PERM_ADDRESS => Nla::PermAddress(slice_to_vec(payload)),
                IFLA_IFNAME => Nla::IfName(parse_string(payload, "IFLA_IFNAME")?),
                IFLA_QDISC => Nla::Qdisc(parse_string(payload, "IFLA_QDISC")?),
                IFLA_IFALIAS => Nla::IfAlias(parse_string(payload, "IFLA_IFALIAS")?),
                IFLA_PHYS_PORT_NAME => {
                    Nla::PhysPortName(parse_string(payload, "IFLA_PHYS_PORT_NAME")?)
                },
                IFLA_ALT_IFNAME => Nla::AltIfName(parse_string(payload, "IFLA_ALT_IFNAME")?),
                IFLA_LINKMODE => Nla::Mode(parse_u8(payload, "IFLA_LINKMODE")?),
                IFLA_CARRIER => Nla::Carrier(parse_u8(payload, "IFLA_CARRIER")?),
                IFLA_PROTO_DOWN => Nla::ProtoDown(parse_u8(payload, "IFLA_PROTO_DOWN")?),
                IFLA_MTU => Nla::Mtu(parse_u32(payload, "IFLA_MTU")?),
                IFLA_LINK => Nla::Link(parse_u32(payload, "IFLA_LINK")?),
                IFLA_MASTER => Nla::Master(parse_u32(payload, "IFLA_MASTER")?),
                IFLA_TXQLEN => Nla::TxQueueLen(parse_u32(payload, "IFLA_TXQLEN")?),
                IFLA_NET_NS_PID => Nla::NetNsPid(parse_u32(payload, "IFLA_NET_NS_PID")?),
                IFLA_NUM_VF => Nla::NumVf(parse_u32(payload, "IFLA_NUM_VF")?),
                IFLA_GROUP => Nla::Group(parse_u32(payload, "IFLA_GROUP")?),
                IFLA_NET_NS_FD => Nla::NetNsFd(parse_i32(payload, "IFLA_NET_NS_FD")?),
                IFLA_EXT_MASK => Nla::ExtMask(parse_u32(payload, "IFLA_EXT_MASK")?),
                IFLA_PROMISCUITY => Nla::Promiscuity(parse_u32(payload, "IFLA_PROMISCUITY")?),
                IFLA_NUM_TX_QUEUES => Nla::NumTxQueues(parse_u32(payload, "IFLA_NUM_TX_QUEUES")?),
                IFLA_NUM_RX_QUEUES => Nla::NumRxQueues(parse_u32(payload, "IFLA_NUM_RX_QUEUES")?),
                IFLA_CARRIER_CHANGES => {
                    Nla::CarrierChanges(parse_u32(payload, "IFLA_CARRIER_CHANGES")?)
                },
                IFLA_GSO_MAX_SEGS => Nla::GsoMaxSegs(parse_u32(payload, "IFLA_GSO_MAX_SEGS")?),
                IFLA_GSO_MAX_SIZE => Nla::GsoMaxSize(parse_u32(payload, "IFLA_GSO_MAX_SIZE")?),
                IFLA_MIN_MTU => Nla::MinMtu(parse_u32(payload, "IFLA_MIN_MTU")?),
                IFLA_MAX_MTU => Nla::MaxMtu(parse_u32(payload, "IFLA_MAX_MTU")?),
                IFLA_LINK_NETNSID => Nla::NetnsId(parse_i32(payload, "IFLA_LINK_NETNSID")?),
                IFLA_OPERSTATE => {
                    Nla::OperState(State::from_code(parse_u8(payload, "IFLA_OPERSTATE")?))
                },
                IFLA_STATS => Nla::Stats(slice_to_vec(payload)),
                IFLA_STATS64 => Nla::Stats64(slice_to_vec(payload)),
                IFLA_MAP => Nla::IfMap(slice_to_vec(payload)),
                IFLA_AF_SPEC => parse_af_spec(payload, family)?,
                _ => Nla::Other(DefaultNla::parse(buf)?),
            },
        )
    }
}

/// Decodes the per-family data of a link under the address family of the
/// message that holds it.
pub fn parse_af_spec(payload: &[u8], family: u16) -> (r: Result<Nla, DecodeError>)
    ensures
        result_view(r) == decoded_af_spec(payload@, family),
{
    Ok(
        match family {
            AF_INET | AF_INET6 | AF_UNSPEC => match parse_all::<AfSpecInet>(payload) {
                Ok(l) => Nla::AfSpecInet(l),
                Err(e) => {
                    return Err(e.nested_in("IFLA_AF_SPEC"));
                },
            },
            AF_BRIDGE => Nla::AfSpecBridge(slice_to_vec(payload)),
            _ => Nla::AfSpecUnknown(slice_to_vec(payload)),
        },
    )
}

/// The value of an attribute that can be written fits the length field:
/// a number takes as many bytes as its type has.
proof fn lemma_value_width(v: NlaView)
    ensures
        (v is Mode || v is Carrier || v is ProtoDown || v is OperState) ==> v.value().len() == 1,
        (v is Mtu || v is Link || v is Master || v is TxQueueLen || v is NetNsPid ||
            v is NumVf || v is Group || v is NetNsFd || v is ExtMask || v is Promiscuity ||
            v is NumTxQueues || v is NumRxQueues || v is CarrierChanges || v is GsoMaxSegs ||
            v is GsoMaxSize || v is MinMtu || v is MaxMtu || v is NetnsId) ==> v.value().len() == 4,
        (v is IfName || v is Qdisc || v is IfAlias || v is PhysPortName || v is AltIfName)
            ==> v.value().len() == encode_utf8(text_of(v)).len() + 1,
        v.emittable() ==> v.value().len() <= NLA_MAX_VALUE_LEN,
{
    match v {
        NlaView::Mtu(x)
        | NlaView::Link(x)
        | NlaView::Master(x)
        | NlaView::TxQueueLen(x)
        | NlaView::NetNsPid(x)
        | NlaView::NumVf(x)
        | NlaView::Group(x)
        | NlaView::ExtMask(x)
        | NlaView::Promiscuity(x)
        | NlaView::NumTxQueues(x)
        | NlaView::NumRxQueues(x)
        | NlaView::CarrierChanges(x)
        | NlaView::GsoMaxSegs(x)
        | NlaView::GsoMaxSize(x)
        | NlaView::MinMtu(x)
        | NlaView::MaxMtu(x) => lemma_u32_round_trip(x, Seq::empty()),
        NlaView::NetNsFd(x)
        | NlaView::NetnsId(x) => lemma_i32_round_trip(x, Seq::empty()),
        _ => {},
    }
}

/// The text that a text attribute holds.
spec fn text_of(v: NlaView) -> Seq<char> {
    match v {
        NlaView::IfName(s)
        | NlaView::Qdisc(s)
        | NlaView::IfAlias(s)
        | NlaView::PhysPortName(s)
        | NlaView::AltIfName(s) => s,
        _ => Seq::empty(),
    }
}

/// Decoding undoes writing: the record that an attribute is written as
/// decodes to that attribute, for every attribute that can be written and
/// that decoding can give under the family.
pub proof fn lemma_round_trip(v: NlaView, family: u16)
    requires
        v.emittable(),
        v.canonical(family),
    ensures
        decoded(<Nla as Attribute>::record_of(v), family) == Ok::<NlaView, DecodeError>(v),
{
    lemma_value_width(v);
    match v {
        NlaView::IfName(s) => lemma_text_round_trip(s, "IFLA_IFNAME"),
        NlaView::Qdisc(s) => lemma_text_round_trip(s, "IFLA_QDISC"),
        NlaView::IfAlias(s) => lemma_text_round_trip(s, "IFLA_IFALIAS"),
        NlaView::PhysPortName(s) => lemma_text_round_trip(s, "IFLA_PHYS_PORT_NAME"),
        NlaView::AltIfName(s) => lemma_text_round_trip(s, "IFLA_ALT_IFNAME"),
        NlaView::OperState(s) => lemma_state_round_trip(0, s),
        NlaView::Mtu(x)
        | NlaView::Link(x)
        | NlaView::Master(x)
        | NlaView::TxQueueLen(x)
        | NlaView::NetNsPid(x)
        | NlaView::NumVf(x)
        | NlaView::Group(x)
        | NlaView::ExtMask(x)
        | NlaView::Promiscuity(x)
        | NlaView::NumTxQueues(x)
        | NlaView::NumRxQueues(x)
        | NlaView::CarrierChanges(x)
        | NlaView::GsoMaxSegs(x)
        | NlaView::GsoMaxSize(x)
        | NlaView::MinMtu(x)
        | NlaView::MaxMtu(x) => lemma_u32_round_trip(x, Seq::empty()),
        NlaView::NetNsFd(x)
        | NlaView::NetnsId(x) => lemma_i32_round_trip(x, Seq::empty()),
        NlaView::Info(l) => {
            let f = parser_of::<Info>();
            assert forall|i: int| 0 <= i < l.len() implies f(
                <Info as Attribute>::record_of(#[trigger] l[i]),
            ) == Ok::<InfoView, DecodeError>(l[i]) by {
                link_infos::lemma_round_trip(l[i]);
            }
            lemma_parse_written::<Info>(l, f);
        },
        NlaView::AfSpecInet(l) => {
            let f = parser_of::<AfSpecInet>();
            assert forall|i: int| 0 <= i < l.len() implies f(
                <AfSpecInet as Attribute>::record_of(#[trigger] l[i]),
            ) == Ok::<AfSpecInetView, DecodeError>(l[i]) by {
                af_spec_inet::lemma_round_trip(l[i]);
            }
            lemma_parse_written::<AfSpecInet>(l, f);
        },
        _ => {},
    }
}

/// What a record decodes to is an attribute that decoding can give under the family.
pub proof fn lemma_decoded_canonical(r: Record, family: u16)
    requires
        decoded(r, family) is Ok,
    ensures
        decoded(r, family)->Ok_0.canonical(family),
{
    lemma_state_round_trip(r.value[0], State::Unknown);
    match decoded(r, family)->Ok_0 {
        NlaView::Info(l) => {
            let f = parser_of::<Info>();
            assert forall|i: int| 0 <= i < l.len() implies (#[trigger] l[i]).canonical() by {
                let one = lemma_parsed_from_records(r.value, f, i);
                link_infos::lemma_decoded_canonical(one);
            }
        },
        NlaView::AfSpecInet(l) => {
            let f = parser_of::<AfSpecInet>();
            assert forall|i: int| 0 <= i < l.len() implies (#[trigger] l[i]).canonical() by {
                let one = lemma_parsed_from_records(r.value, f, i);
                af_spec_inet::lemma_decoded_canonical(one);
            }
        },
        _ => {},
    }
}

/// A record of a kind that the table lacks never fails to decode: it is
/// kept in `Other` with its kind and its value, and is written as the same
/// record again.
pub proof fn lemma_unknown_kind(r: Record, family: u16)
    requires
        !known_kind(r.kind),
    ensures
        decoded(r, family) == Ok::<NlaView, DecodeError>(NlaView::Other(r)),
        <Nla as Attribute>::record_of(NlaView::Other(r)) == r,
{
}

/// The address family alone decides how the same per-family data decodes:
/// as a nested list, as the bytes of the bridge family, or as the bytes of
/// an unknown family. The last two never fail.
pub proof fn lemma_family_branches(value: Seq<u8>, family: u16)
    ensures
        family == AF_INET || family == AF_INET6 || family == AF_UNSPEC ==> decoded_af_spec(
            value,
            family,
        ) == decoded_af_spec(value, AF_INET),
        decoded_af_spec(value, AF_INET) matches Ok(v) ==> v is AfSpecInet,
        family == AF_BRIDGE ==> decoded_af_spec(value, family) == Ok::<NlaView, DecodeError>(
            NlaView::AfSpecBridge(value),
        ),
        family != AF_INET && family != AF_INET6 && family != AF_UNSPEC && family != AF_BRIDGE
            ==> decoded_af_spec(value, family) == Ok::<NlaView, DecodeError>(
            NlaView::AfSpecUnknown(value),
        ),
{
}

} // verus!
