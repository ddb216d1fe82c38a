use netlink_packet_route::errors::DecodeError;
use netlink_packet_route::link::af_spec_inet::AfSpecInet;
use netlink_packet_route::link::header::{LinkHeader, LinkMessageBuffer, LINK_HEADER_LEN};
use netlink_packet_route::link::inet::Inet;
use netlink_packet_route::link::inet6::Inet6;
use netlink_packet_route::link::link_infos::Info;
use netlink_packet_route::link::message::LinkMessage;
use netlink_packet_route::link::nlas::{parse_af_spec, Nla, LINK_STATS64_LEN, LINK_STATS_LEN};
use netlink_packet_route::link::state::State;
use netlink_packet_route::nla::{
    buffer_len, emit, DefaultNla, Nla as Attribute, NlaBuffer, Parseable, ParseableParametrized,
};

const AF_UNSPEC: u16 = 0;
const AF_INET: u16 = 2;
const AF_BRIDGE: u16 = 7;
const AF_INET6: u16 = 10;

fn record(kind: u16, value: &[u8]) -> Vec<u8> {
    let mut bytes = Vec::new();
    bytes.extend_from_slice(&((value.len() + 4) as u16).to_ne_bytes());
    bytes.extend_from_slice(&kind.to_ne_bytes());
    bytes.extend_from_slice(value);
    while bytes.len() % 4 != 0 {
        bytes.push(0);
    }
    bytes
}

fn decode(bytes: &[u8], family: u16) -> Result<Nla, DecodeError> {
    Nla::parse_with_param(&NlaBuffer::new_checked(bytes).unwrap(), family)
}

fn encode(nla: &Nla) -> Vec<u8> {
    assert!(nla.is_emittable());
    let mut buffer = vec![0xff; buffer_len(nla)];
    emit(nla, &mut buffer[..]);
    buffer
}

fn malformed(name: &'static str) -> DecodeError {
    DecodeError::Malformed { name }
}

fn nested(name: &'static str, cause: DecodeError) -> DecodeError {
    DecodeError::Nested { name, cause: Box::new(cause) }
}

fn header_bytes(family: u8, index: u32) -> Vec<u8> {
    let mut bytes = vec![family, 0];
    bytes.extend_from_slice(&1u16.to_ne_bytes());
    bytes.extend_from_slice(&index.to_ne_bytes());
    bytes.extend_from_slice(&0x1043u32.to_ne_bytes());
    bytes.extend_from_slice(&0u32.to_ne_bytes());
    bytes
}

fn header(family: u8, index: u32) -> LinkHeader {
    LinkHeader {
        interface_family: family,
        link_layer_type: 1,
        index,
        flags: 0x1043,
        change_mask: 0,
    }
}

fn per_family_payload() -> Vec<u8> {
    let conf = record(1, &[1, 0, 0, 0, 2, 0, 0, 0]);
    let mut inet6 = record(1, &0x20u32.to_ne_bytes());
    inet6.extend_from_slice(&record(8, &[3]));
    let mut payload = record(AF_INET, &conf);
    payload.extend_from_slice(&record(AF_INET6, &inet6));
    payload
}

fn per_family_list() -> Vec<AfSpecInet> {
    vec![
        AfSpecInet::Inet(vec![Inet::DevConf(vec![1, 0, 0, 0, 2, 0, 0, 0])]),
        AfSpecInet::Inet6(vec![Inet6::Flags(0x20), Inet6::AddrGenMode(3)]),
    ]
}

#[test]
fn end_to_end_link_message() {
    let mut bytes = Vec::new();
    bytes.extend_from_slice(&[2, 0]);
    bytes.extend_from_slice(&0u16.to_ne_bytes());
    bytes.extend_from_slice(&2u32.to_ne_bytes());
    bytes.extend_from_slice(&0u32.to_ne_bytes());
    bytes.extend_from_slice(&0u32.to_ne_bytes());
    bytes.extend_from_slice(&8u16.to_ne_bytes());
    bytes.extend_from_slice(&4u16.to_ne_bytes());
    bytes.extend_from_slice(&1500u32.to_ne_bytes());
    bytes.extend_from_slice(&9u16.to_ne_bytes());
    bytes.extend_from_slice(&3u16.to_ne_bytes());
    bytes.extend_from_slice(b"eth0\0");
    bytes.extend_from_slice(&[0, 0, 0]);
    assert_eq!(bytes.len(), 36);

    let message = LinkMessage::parse(&LinkMessageBuffer::new_checked(&bytes[..]).unwrap())
        .unwrap();
    assert_eq!(message.header.index, 2);
    assert_eq!(message.header.interface_family, 2);
    assert_eq!(message.header.link_layer_type, 0);
    assert_eq!(message.header.flags, 0);
    assert_eq!(message.header.change_mask, 0);
    assert_eq!(message.nlas, vec![Nla::Mtu(1500), Nla::IfName(String::from("eth0"))]);

    assert!(message.is_emittable());
    assert_eq!(message.buffer_len(), 36);
    let mut buffer = vec![0xff; 36];
    message.emit(&mut buffer[..]);
    assert_eq!(buffer, bytes);
}

#[test]
fn family_decides_how_per_family_data_decodes() {
    let bytes = record(26, &per_family_payload());
    assert_eq!(decode(&bytes, AF_INET), Ok(Nla::AfSpecInet(per_family_list())));
    assert_eq!(decode(&bytes, AF_INET6), Ok(Nla::AfSpecInet(per_family_list())));
    assert_eq!(decode(&bytes, AF_UNSPEC), Ok(Nla::AfSpecInet(per_family_list())));
    assert_eq!(decode(&bytes, AF_BRIDGE), Ok(Nla::AfSpecBridge(per_family_payload())));
    assert_eq!(decode(&bytes, 1), Ok(Nla::AfSpecUnknown(per_family_payload())));
    assert_eq!(decode(&bytes, 0xffff), Ok(Nla::AfSpecUnknown(per_family_payload())));
}

#[test]
fn sub_dispatch_takes_the_payload_and_the_family() {
    let payload = per_family_payload();
    assert_eq!(parse_af_spec(&payload[..], AF_INET), Ok(Nla::AfSpecInet(per_family_list())));
    assert_eq!(parse_af_spec(&payload[..], AF_BRIDGE), Ok(Nla::AfSpecBridge(payload.clone())));
    assert_eq!(parse_af_spec(&payload[..], 3), Ok(Nla::AfSpecUnknown(payload.clone())));
    assert_eq!(parse_af_spec(&[], AF_INET6), Ok(Nla::AfSpecInet(vec![])));
    assert_eq!(
        parse_af_spec(&payload[..payload.len() - 1], AF_UNSPEC),
        Err(nested("IFLA_AF_SPEC", DecodeError::Truncated))
    );
}

#[test]
fn per_family_data_is_written_as_it_was_read() {
    let bytes = record(26, &per_family_payload());
    assert_eq!(encode(&Nla::AfSpecInet(per_family_list())), bytes);
    assert_eq!(encode(&Nla::AfSpecBridge(per_family_payload())), bytes);
    assert_eq!(encode(&Nla::AfSpecUnknown(per_family_payload())), bytes);
    assert_eq!(Nla::AfSpecInet(per_family_list()).value_len(), per_family_payload().len());
    assert_eq!(Nla::AfSpecInet(vec![]).value_len(), 0);
    assert_eq!(decode(&record(26, &[]), AF_INET), Ok(Nla::AfSpecInet(vec![])));
}

#[test]
fn failure_in_per_family_data_names_the_enclosing_kinds() {
    let broken = record(AF_INET6, &record(1, &[1, 2, 3]));
    assert_eq!(
        decode(&record(26, &broken), AF_INET),
        Err(nested("IFLA_AF_SPEC", nested("AF_INET6", malformed("IFLA_INET6_FLAGS"))))
    );
    assert_eq!(decode(&record(26, &broken), AF_BRIDGE), Ok(Nla::AfSpecBridge(broken)));
    assert_eq!(
        decode(&record(26, &[1, 2, 3]), AF_UNSPEC),
        Err(nested("IFLA_AF_SPEC", DecodeError::Truncated))
    );
    assert_eq!(
        decode(&record(26, &[2, 0, 2, 0]), AF_UNSPEC),
        Err(nested("IFLA_AF_SPEC", DecodeError::InvalidLength))
    );
    let cut = record(AF_INET, &[12, 0, 1, 0, 1, 2]);
    assert_eq!(
        decode(&record(26, &cut), AF_INET6),
        Err(nested("IFLA_AF_SPEC", nested("AF_INET", DecodeError::Truncated)))
    );
}

#[test]
fn link_info_is_a_nested_list() {
    let mut payload = record(1, b"bridge\0");
    payload.extend_from_slice(&record(2, &[1, 2, 3, 4, 5]));
    payload.extend_from_slice(&record(77, &[9]));
    let list = vec![
        Info::Kind(String::from("bridge")),
        Info::Data(vec![1, 2, 3, 4, 5]),
        Info::Other(DefaultNla::new(77, vec![9])),
    ];
    assert_eq!(decode(&record(18, &payload), AF_INET), Ok(Nla::Info(list.clone())));
    assert_eq!(encode(&Nla::Info(list)), record(18, &payload));
}

#[test]
fn empty_link_info_is_the_empty_list() {
    assert_eq!(decode(&record(18, &[]), AF_INET), Ok(Nla::Info(vec![])));
    assert_eq!(Nla::Info(vec![]).value_len(), 0);
    assert_eq!(encode(&Nla::Info(vec![])), record(18, &[]));
    assert_eq!(decode(&encode(&Nla::Info(vec![])), AF_INET), Ok(Nla::Info(vec![])));
}

#[test]
fn failure_in_link_info_names_the_kind() {
    assert_eq!(
        decode(&record(18, &[1, 2, 3]), AF_INET),
        Err(nested("IFLA_LINKINFO", DecodeError::Truncated))
    );
    assert_eq!(
        decode(&record(18, &[3, 0, 1, 0]), AF_INET),
        Err(nested("IFLA_LINKINFO", DecodeError::InvalidLength))
    );
    assert_eq!(
        decode(&record(18, &record(1, b"vlan")), AF_INET),
        Err(nested("IFLA_LINKINFO", malformed("IFLA_INFO_KIND")))
    );
}

#[test]
fn link_info_kinds() {
    let info = |bytes: &[u8]| Info::parse(&NlaBuffer::new_checked(bytes).unwrap());
    assert_eq!(info(&record(0, &[1])), Ok(Info::Unspec(vec![1])));
    assert_eq!(info(&record(1, b"dummy\0")), Ok(Info::Kind(String::from("dummy"))));
    assert_eq!(info(&record(2, &[1])), Ok(Info::Data(vec![1])));
    assert_eq!(info(&record(3, &[1])), Ok(Info::Xstats(vec![1])));
    assert_eq!(info(&record(4, &[1])), Ok(Info::SlaveKind(vec![1])));
    assert_eq!(info(&record(5, &[1])), Ok(Info::SlaveData(vec![1])));
    assert_eq!(info(&record(6, &[1])), Ok(Info::Other(DefaultNla::new(6, vec![1]))));
    assert_eq!(Info::Kind(String::from("dummy")).value_len(), 6);
    assert_eq!(Info::Kind(String::from("dummy")).kind(), 1);
}

#[test]
fn per_family_kinds() {
    let family = |bytes: &[u8]| AfSpecInet::parse(&NlaBuffer::new_checked(bytes).unwrap());
    assert_eq!(family(&record(0, &[1])), Ok(AfSpecInet::Unspec(vec![1])));
    assert_eq!(family(&record(1, &[1])), Ok(AfSpecInet::Unix(vec![1])));
    assert_eq!(family(&record(7, &[1])), Ok(AfSpecInet::Bridge(vec![1])));
    assert_eq!(family(&record(3, &[1])), Ok(AfSpecInet::Other(DefaultNla::new(3, vec![1]))));
    let inet = |bytes: &[u8]| Inet::parse(&NlaBuffer::new_checked(bytes).unwrap());
    assert_eq!(inet(&record(0, &[1])), Ok(Inet::Unspec(vec![1])));
    assert_eq!(inet(&record(1, &[1])), Ok(Inet::DevConf(vec![1])));
    assert_eq!(inet(&record(2, &[1])), Ok(Inet::Other(DefaultNla::new(2, vec![1]))));
    let inet6 = |bytes: &[u8]| Inet6::parse(&NlaBuffer::new_checked(bytes).unwrap());
    assert_eq!(inet6(&record(0, &[1])), Ok(Inet6::Unspec(vec![1])));
    assert_eq!(inet6(&record(1, &7u32.to_ne_bytes())), Ok(Inet6::Flags(7)));
    assert_eq!(inet6(&record(2, &[1])), Ok(Inet6::DevConf(vec![1])));
    assert_eq!(inet6(&record(3, &[1])), Ok(Inet6::Stats(vec![1])));
    assert_eq!(inet6(&record(4, &[1])), Ok(Inet6::Other(DefaultNla::new(4, vec![1]))));
    assert_eq!(inet6(&record(5, &[1])), Ok(Inet6::CacheInfo(vec![1])));
    assert_eq!(inet6(&record(6, &[1])), Ok(Inet6::IcmpStats(vec![1])));
    assert_eq!(inet6(&record(7, &[1; 16])), Ok(Inet6::Token(vec![1; 16])));
    assert_eq!(inet6(&record(8, &[1])), Ok(Inet6::AddrGenMode(1)));
    assert_eq!(inet6(&record(8, &[1, 2])), Err(malformed("IFLA_INET6_ADDR_GEN_MODE")));
    assert_eq!(inet6(&record(9, &[1])), Ok(Inet6::Other(DefaultNla::new(9, vec![1]))));
}

#[test]
fn link_kinds_with_bytes_keep_them() {
    let b = vec![1, 2, 3];
    let r = |kind: u16| decode(&record(kind, &[1, 2, 3]), AF_INET);
    assert_eq!(r(0), Ok(Nla::Unspec(b.clone())));
    assert_eq!(r(1), Ok(Nla::Address(b.clone())));
    assert_eq!(r(2), Ok(Nla::Broadcast(b.clone())));
    assert_eq!(r(7), Ok(Nla::Stats(b.clone())));
    assert_eq!(r(8), Ok(Nla::Cost(b.clone())));
    assert_eq!(r(9), Ok(Nla::Priority(b.clone())));
    assert_eq!(r(11), Ok(Nla::Wireless(b.clone())));
    assert_eq!(r(12), Ok(Nla::ProtoInfo(b.clone())));
    assert_eq!(r(14), Ok(Nla::IfMap(b.clone())));
    assert_eq!(r(15), Ok(Nla::Weight(b.clone())));
    assert_eq!(r(22), Ok(Nla::VfInfoList(b.clone())));
    assert_eq!(r(23), Ok(Nla::Stats64(b.clone())));
    assert_eq!(r(24), Ok(Nla::VfPorts(b.clone())));
    assert_eq!(r(25), Ok(Nla::PortSelf(b.clone())));
    assert_eq!(r(34), Ok(Nla::PhysPortId(b.clone())));
    assert_eq!(r(36), Ok(Nla::PhysSwitchId(b.clone())));
    assert_eq!(r(42), Ok(Nla::Pad(b.clone())));
    assert_eq!(r(43), Ok(Nla::Xdp(b.clone())));
    assert_eq!(r(44), Ok(Nla::Event(b.clone())));
    assert_eq!(r(45), Ok(Nla::NewNetnsId(b.clone())));
    assert_eq!(r(46), Ok(Nla::IfNetnsId(b.clone())));
    assert_eq!(r(47), Ok(Nla::CarrierUpCount(b.clone())));
    assert_eq!(r(48), Ok(Nla::CarrierDownCount(b.clone())));
    assert_eq!(r(49), Ok(Nla::NewIfIndex(b.clone())));
    assert_eq!(r(52), Ok(Nla::PropList(b.clone())));
    assert_eq!(r(54), Ok(Nla::PermAddress(b.clone())));
    assert_eq!(r(55), Ok(Nla::ProtoDownReason(b.clone())));
}

#[test]
fn link_kinds_with_text_decode_it() {
    let r = |kind: u16| decode(&record(kind, b"lo\0"), AF_INET);
    let lo = String::from("lo");
    assert_eq!(r(3), Ok(Nla::IfName(lo.clone())));
    assert_eq!(r(6), Ok(Nla::Qdisc(lo.clone())));
    assert_eq!(r(20), Ok(Nla::IfAlias(lo.clone())));
    assert_eq!(r(38), Ok(Nla::PhysPortName(lo.clone())));
    assert_eq!(r(53), Ok(Nla::AltIfName(lo.clone())));
}

#[test]
fn link_kinds_with_numbers_decode_them() {
    let r = |kind: u16| decode(&record(kind, &0x8000_0001u32.to_ne_bytes()), AF_INET);
    let n = 0x8000_0001u32;
    assert_eq!(r(4), Ok(Nla::Mtu(n)));
    assert_eq!(r(5), Ok(Nla::Link(n)));
    assert_eq!(r(10), Ok(Nla::Master(n)));
    assert_eq!(r(13), Ok(Nla::TxQueueLen(n)));
    assert_eq!(r(19), Ok(Nla::NetNsPid(n)));
    assert_eq!(r(21), Ok(Nla::NumVf(n)));
    assert_eq!(r(27), Ok(Nla::Group(n)));
    assert_eq!(r(28), Ok(Nla::NetNsFd(-0x7fff_ffff)));
    assert_eq!(r(29), Ok(Nla::ExtMask(n)));
    assert_eq!(r(30), Ok(Nla::Promiscuity(n)));
    assert_eq!(r(31), Ok(Nla::NumTxQueues(n)));
    assert_eq!(r(32), Ok(Nla::NumRxQueues(n)));
    assert_eq!(r(35), Ok(Nla::CarrierChanges(n)));
    assert_eq!(r(37), Ok(Nla::NetnsId(-0x7fff_ffff)));
    assert_eq!(r(40), Ok(Nla::GsoMaxSegs(n)));
    assert_eq!(r(41), Ok(Nla::GsoMaxSize(n)));
    assert_eq!(r(50), Ok(Nla::MinMtu(n)));
    assert_eq!(r(51), Ok(Nla::MaxMtu(n)));
    let r = |kind: u16| decode(&record(kind, &[5]), AF_INET);
    assert_eq!(r(17), Ok(Nla::Mode(5)));
    assert_eq!(r(33), Ok(Nla::Carrier(5)));
    assert_eq!(r(39), Ok(Nla::ProtoDown(5)));
    assert_eq!(r(16), Ok(Nla::OperState(State::Dormant)));
}

#[test]
fn link_value_of_wrong_shape_is_malformed_under_the_name_of_its_kind() {
    assert_eq!(decode(&record(4, &[1, 2, 3]), AF_INET), Err(malformed("IFLA_MTU")));
    assert_eq!(decode(&record(13, &[1, 2, 3, 4, 5]), AF_INET), Err(malformed("IFLA_TXQLEN")));
    assert_eq!(decode(&record(28, &[]), AF_INET), Err(malformed("IFLA_NET_NS_FD")));
    assert_eq!(decode(&record(37, &[1]), AF_INET), Err(malformed("IFLA_LINK_NETNSID")));
    assert_eq!(decode(&record(17, &[1, 2]), AF_INET), Err(malformed("IFLA_LINKMODE")));
    assert_eq!(decode(&record(16, &[]), AF_INET), Err(malformed("IFLA_OPERSTATE")));
    assert_eq!(decode(&record(3, b"eth0"), AF_INET), Err(malformed("IFLA_IFNAME")));
    assert_eq!(decode(&record(3, &[]), AF_INET), Err(malformed("IFLA_IFNAME")));
    assert_eq!(decode(&record(6, &[0xff, 0]), AF_INET), Err(malformed("IFLA_QDISC")));
    assert_eq!(decode(&record(53, &[0x80, 0]), AF_INET), Err(malformed("IFLA_ALT_IFNAME")));
}

#[test]
fn link_unknown_kind_is_kept_and_written_back() {
    let bytes = record(56, &[1, 2, 3, 4, 5, 6]);
    let nla = decode(&bytes, AF_INET).unwrap();
    assert_eq!(nla, Nla::Other(DefaultNla::new(56, vec![1, 2, 3, 4, 5, 6])));
    assert_eq!(encode(&nla), bytes);
    let bytes = record(0x8012, &[]);
    let nla = decode(&bytes, AF_BRIDGE).unwrap();
    assert_eq!(nla, Nla::Other(DefaultNla::new(0x8012, vec![])));
    assert_eq!(encode(&nla), bytes);
}

#[test]
fn link_attributes_are_written_as_their_records() {
    assert_eq!(encode(&Nla::Mtu(1500)), record(4, &1500u32.to_ne_bytes()));
    assert_eq!(encode(&Nla::NetnsId(-1)), record(37, &[0xff; 4]));
    assert_eq!(encode(&Nla::NetNsFd(i32::MIN)), record(28, &i32::MIN.to_ne_bytes()));
    assert_eq!(encode(&Nla::Carrier(1)), record(33, &[1]));
    assert_eq!(encode(&Nla::OperState(State::Up)), record(16, &[6]));
    assert_eq!(encode(&Nla::OperState(State::Other(200))), record(16, &[200]));
    assert_eq!(encode(&Nla::IfName(String::from("eth0"))), record(3, b"eth0\0"));
    assert_eq!(encode(&Nla::Address(vec![1, 2, 3, 4, 5, 6])), record(1, &[1, 2, 3, 4, 5, 6]));
    assert_eq!(Nla::IfName(String::from("eth0")).value_len(), 5);
    assert_eq!(Nla::Mtu(0).value_len(), 4);
    assert_eq!(Nla::Carrier(0).value_len(), 1);
    assert_eq!(Nla::OperState(State::Up).value_len(), 1);
    assert_eq!(Nla::Mtu(0).kind(), 4);
}

#[test]
fn empty_text_is_written_as_a_lone_zero_byte() {
    assert_eq!(Nla::IfAlias(String::new()).value_len(), 1);
    assert_eq!(encode(&Nla::IfAlias(String::new())), record(20, &[0]));
    assert_eq!(decode(&record(20, &[0]), AF_INET), Ok(Nla::IfAlias(String::new())));
}

#[test]
fn link_counters_have_a_fixed_size() {
    assert_eq!(LINK_STATS_LEN, 96);
    assert_eq!(LINK_STATS64_LEN, 192);
    assert!(Nla::Stats(vec![7; 96]).is_emittable());
    assert!(!Nla::Stats(vec![7; 95]).is_emittable());
    assert!(!Nla::Stats(vec![7; 192]).is_emittable());
    assert!(Nla::Stats64(vec![7; 192]).is_emittable());
    assert!(!Nla::Stats64(vec![7; 96]).is_emittable());
    assert_eq!(Nla::Stats(vec![7; 96]).value_len(), 96);
    assert_eq!(encode(&Nla::Stats64(vec![7; 192])), record(23, &[7; 192]));
    assert_eq!(decode(&record(7, &[7; 96]), AF_INET), Ok(Nla::Stats(vec![7; 96])));
}

#[test]
fn nested_list_that_the_length_field_cannot_hold_is_not_emittable() {
    let big = Nla::Info(vec![Info::Data(vec![0; 65524])]);
    assert!(big.is_emittable());
    assert_eq!(big.value_len(), 65528);
    assert!(!Nla::Info(vec![Info::Data(vec![0; 65525])]).is_emittable());
    assert!(!Nla::Info(vec![Info::Data(vec![0; 40000]), Info::Data(vec![0; 40000])]).is_emittable());
    assert!(!Nla::AfSpecInet(vec![AfSpecInet::Unix(vec![0; 65532])]).is_emittable());
    assert!(!Nla::IfName("x".repeat(65531)).is_emittable());
    assert!(Nla::IfName("x".repeat(65530)).is_emittable());
}

#[test]
fn link_attribute_round_trip() {
    let nlas = vec![
        (Nla::Address(vec![0, 1, 2, 3, 4, 5]), AF_INET),
        (Nla::IfName(String::from("wlp3s0")), AF_INET),
        (Nla::Mtu(65536), AF_INET),
        (Nla::NetnsId(-5), AF_INET),
        (Nla::ProtoDown(1), AF_INET),
        (Nla::OperState(State::LowerLayerDown), AF_INET),
        (Nla::OperState(State::Other(7)), AF_INET),
        (Nla::Stats(vec![1; 96]), AF_INET),
        (Nla::Info(vec![Info::Kind(String::from("veth")), Info::Data(vec![])]), AF_INET),
        (Nla::Info(vec![]), AF_INET),
        (Nla::AfSpecInet(vec![]), AF_UNSPEC),
        (Nla::AfSpecInet(per_family_list()), AF_INET6),
        (Nla::AfSpecBridge(vec![1, 2, 3]), AF_BRIDGE),
        (Nla::AfSpecUnknown(vec![1, 2, 3]), 40),
        (Nla::Other(DefaultNla::new(60000, vec![1])), AF_INET),
    ];
    for (nla, family) in nlas.iter() {
        assert_eq!(decode(&encode(nla), *family).as_ref(), Ok(nla));
    }
}

#[test]
fn state_codes() {
    assert_eq!(State::from(0), State::Unknown);
    assert_eq!(State::from(1), State::NotPresent);
    assert_eq!(State::from(2), State::Down);
    assert_eq!(State::from(3), State::LowerLayerDown);
    assert_eq!(State::from(4), State::Testing);
    assert_eq!(State::from(5), State::Dormant);
    assert_eq!(State::from(6), State::Up);
    assert_eq!(State::from(7), State::Other(7));
    assert_eq!(State::from_code(255), State::Other(255));
    for code in 0..=255u8 {
        assert_eq!(u8::from(State::from(code)), code);
        assert_eq!(State::from_code(code).to_code(), code);
    }
    assert_eq!(u8::from(State::Other(2)), 2);
}

#[test]
fn link_header_has_sixteen_bytes() {
    let bytes = header_bytes(10, 3);
    let buf = LinkMessageBuffer::new_checked(&bytes[..]).unwrap();
    assert_eq!(buf.interface_family(), 10);
    assert_eq!(LinkHeader::parse(&buf), Ok(header(10, 3)));
    assert_eq!(header(10, 3).buffer_len(), LINK_HEADER_LEN);
    let mut buffer = vec![0xff; 17];
    header(10, 3).emit(&mut buffer[..]);
    assert_eq!(&buffer[..16], &bytes[..]);
    assert_eq!(buffer[16], 0xff);
    assert_eq!(
        LinkMessageBuffer::new_checked(&bytes[..15]).err(),
        Some(DecodeError::Truncated)
    );
}

#[test]
fn link_message_decodes_per_family_data_by_its_header() {
    let mut bytes = header_bytes(AF_INET6 as u8, 1);
    bytes.extend_from_slice(&record(3, b"lo\0"));
    bytes.extend_from_slice(&record(26, &per_family_payload()));
    let message = LinkMessage::parse(&LinkMessageBuffer::new_checked(&bytes[..]).unwrap())
        .unwrap();
    assert_eq!(
        message,
        LinkMessage {
            header: header(AF_INET6 as u8, 1),
            nlas: vec![Nla::IfName(String::from("lo")), Nla::AfSpecInet(per_family_list())],
        }
    );
    bytes[0] = AF_BRIDGE as u8;
    let message = LinkMessage::parse(&LinkMessageBuffer::new_checked(&bytes[..]).unwrap())
        .unwrap();
    assert_eq!(message.nlas[1], Nla::AfSpecBridge(per_family_payload()));
    bytes[0] = 200;
    let message = LinkMessage::parse(&LinkMessageBuffer::new_checked(&bytes[..]).unwrap())
        .unwrap();
    assert_eq!(message.nlas[1], Nla::AfSpecUnknown(per_family_payload()));
    let mut buffer = vec![0; message.buffer_len()];
    message.emit(&mut buffer[..]);
    assert_eq!(buffer, bytes);
}

#[test]
fn link_message_written_again_is_the_same_bytes() {
    let mut bytes = header_bytes(AF_INET as u8, 4);
    bytes.extend_from_slice(&record(3, b"br0\0"));
    bytes.extend_from_slice(&record(18, &record(1, b"bridge\0")));
    bytes.extend_from_slice(&record(26, &per_family_payload()));
    bytes.extend_from_slice(&record(1234, &[1, 2, 3]));
    let first = LinkMessage::parse(&LinkMessageBuffer::new_checked(&bytes[..]).unwrap()).unwrap();
    let mut once = vec![0; first.buffer_len()];
    first.emit(&mut once[..]);
    let second = LinkMessage::parse(&LinkMessageBuffer::new_checked(&once[..]).unwrap()).unwrap();
    let mut twice = vec![0; second.buffer_len()];
    second.emit(&mut twice[..]);
    assert_eq!(second, first);
    assert_eq!(twice, once);
    assert_eq!(once, bytes);
}

#[test]
fn link_message_fails_with_its_first_broken_attribute() {
    let mut bytes = header_bytes(AF_INET as u8, 4);
    bytes.extend_from_slice(&record(3, b"br0\0"));
    bytes.extend_from_slice(&record(4, &[1, 2]));
    let decoded = LinkMessage::parse(&LinkMessageBuffer::new_checked(&bytes[..]).unwrap());
    assert_eq!(decoded, Err(malformed("IFLA_MTU")));
    bytes.truncate(16 + 8 + 5);
    let decoded = LinkMessage::parse(&LinkMessageBuffer::new_checked(&bytes[..]).unwrap());
    assert_eq!(decoded, Err(DecodeError::Truncated));
}
