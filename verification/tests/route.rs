use netlink_packet_route::errors::DecodeError;
use netlink_packet_route::nla::{
    buffer_len, emit, DefaultNla, Nla as Attribute, NlaBuffer, Parseable,
};
use netlink_packet_route::route::address::{ip_address, IpAddress};
use netlink_packet_route::route::header::{RouteHeader, RouteMessageBuffer, ROUTE_HEADER_LEN};
use netlink_packet_route::route::message::RouteMessage;
use netlink_packet_route::route::next_hops::{NextHops, NextHopsBuffer, NEXT_HOPS_LEN};
use netlink_packet_route::route::nlas::Nla;

fn record(kind: u16, value: &[u8]) -> Vec<u8> {
    let mut bytes = Vec::new();
    bytes.extend_from_slice(&((value.len() + 4) as u16).to_ne_bytes());
    bytes.extend_from_slice(&kind.to_ne_bytes());
    bytes.extend_from_slice(value);
    while bytes.len() % 4 != 0 {
        bytes.push(0);
    }
    bytes
}

fn decode(bytes: &[u8]) -> Result<Nla, DecodeError> {
    Nla::parse(&NlaBuffer::new_checked(bytes).unwrap())
}

fn encode(nla: &Nla) -> Vec<u8> {
    assert!(nla.is_emittable());
    let mut buffer = vec![0xff; buffer_len(nla)];
    emit(nla, &mut buffer[..]);
    buffer
}

fn header() -> RouteHeader {
    RouteHeader {
        address_family: 2,
        destination_prefix_length: 24,
        source_prefix_length: 16,
        tos: 1,
        table: 254,
        protocol: 3,
        scope: 253,
        kind: 1,
        flags: 0x0102_0304,
    }
}

fn header_bytes() -> Vec<u8> {
    let mut bytes = vec![2, 24, 16, 1, 254, 3, 253, 1];
    bytes.extend_from_slice(&0x0102_0304u32.to_ne_bytes());
    bytes
}

#[test]
fn route_kinds_with_bytes_keep_them() {
    assert_eq!(decode(&record(0, &[1, 2])), Ok(Nla::Unspec(vec![1, 2])));
    assert_eq!(decode(&record(1, &[10, 0, 0, 0])), Ok(Nla::Destination(vec![10, 0, 0, 0])));
    assert_eq!(decode(&record(2, &[10, 0, 0, 1])), Ok(Nla::Source(vec![10, 0, 0, 1])));
    assert_eq!(decode(&record(5, &[10, 0, 0, 254])), Ok(Nla::Gateway(vec![10, 0, 0, 254])));
    assert_eq!(decode(&record(7, &[1])), Ok(Nla::PrefSource(vec![1])));
    assert_eq!(decode(&record(8, &[1])), Ok(Nla::Metrics(vec![1])));
    assert_eq!(decode(&record(9, &[1])), Ok(Nla::MultiPath(vec![1])));
    assert_eq!(decode(&record(12, &[1])), Ok(Nla::CacheInfo(vec![1])));
    assert_eq!(decode(&record(13, &[1])), Ok(Nla::Session(vec![1])));
    assert_eq!(decode(&record(14, &[1])), Ok(Nla::MpAlgo(vec![1])));
    assert_eq!(decode(&record(17, &[1])), Ok(Nla::MfcStats(vec![1])));
    assert_eq!(decode(&record(18, &[1])), Ok(Nla::Via(vec![1])));
    assert_eq!(decode(&record(19, &[1])), Ok(Nla::NewDestination(vec![1])));
    assert_eq!(decode(&record(20, &[1])), Ok(Nla::Pref(vec![1])));
    assert_eq!(decode(&record(22, &[1])), Ok(Nla::Encap(vec![1])));
    assert_eq!(decode(&record(23, &[1])), Ok(Nla::Expires(vec![1])));
    assert_eq!(decode(&record(24, &[])), Ok(Nla::Pad(vec![])));
    assert_eq!(decode(&record(25, &[1])), Ok(Nla::Uid(vec![1])));
    assert_eq!(decode(&record(26, &[1])), Ok(Nla::TtlPropagate(vec![1])));
}

#[test]
fn route_kinds_with_numbers_decode_them() {
    let n = 0x0a0b_0c0du32.to_ne_bytes();
    assert_eq!(decode(&record(3, &n)), Ok(Nla::Iif(0x0a0b_0c0d)));
    assert_eq!(decode(&record(4, &n)), Ok(Nla::Oif(0x0a0b_0c0d)));
    assert_eq!(decode(&record(6, &n)), Ok(Nla::Priority(0x0a0b_0c0d)));
    assert_eq!(decode(&record(10, &n)), Ok(Nla::ProtocolInfo(0x0a0b_0c0d)));
    assert_eq!(decode(&record(11, &n)), Ok(Nla::Flow(0x0a0b_0c0d)));
    assert_eq!(decode(&record(15, &n)), Ok(Nla::Table(0x0a0b_0c0d)));
    assert_eq!(decode(&record(16, &n)), Ok(Nla::Mark(0x0a0b_0c0d)));
    assert_eq!(decode(&record(21, &0x0102u16.to_ne_bytes())), Ok(Nla::EncapType(0x0102)));
}

#[test]
fn route_number_of_wrong_width_is_malformed() {
    assert_eq!(decode(&record(3, &[1, 2, 3])), Err(DecodeError::Malformed { name: "RTA_IIF" }));
    assert_eq!(
        decode(&record(4, &[1, 2, 3, 4, 5])),
        Err(DecodeError::Malformed { name: "RTA_OIF" })
    );
    assert_eq!(
        decode(&record(21, &[1, 2, 3, 4])),
        Err(DecodeError::Malformed { name: "RTA_ENCAP_TYPE" })
    );
    assert_eq!(decode(&record(16, &[])), Err(DecodeError::Malformed { name: "RTA_MARK" }));
}

#[test]
fn route_unknown_kind_is_kept_and_written_back() {
    let bytes = record(27, &[1, 2, 3, 4, 5]);
    let nla = decode(&bytes).unwrap();
    assert_eq!(nla, Nla::Other(DefaultNla::new(27, vec![1, 2, 3, 4, 5])));
    assert_eq!(nla.kind(), 27);
    assert_eq!(encode(&nla), bytes);
    let bytes = record(0xffff, &[]);
    assert_eq!(encode(&decode(&bytes).unwrap()), bytes);
}

#[test]
fn route_attributes_are_written_as_their_records() {
    assert_eq!(encode(&Nla::Gateway(vec![192, 168, 0, 1])), record(5, &[192, 168, 0, 1]));
    assert_eq!(encode(&Nla::Oif(3)), record(4, &3u32.to_ne_bytes()));
    assert_eq!(encode(&Nla::EncapType(0x0102)), record(21, &0x0102u16.to_ne_bytes()));
    assert_eq!(encode(&Nla::Via(vec![1, 2, 3, 4, 5])), record(18, &[1, 2, 3, 4, 5]));
    assert_eq!(Nla::EncapType(1).value_len(), 2);
    assert_eq!(Nla::Table(1).value_len(), 4);
    assert_eq!(Nla::Via(vec![1, 2, 3, 4, 5]).value_len(), 5);
    assert_eq!(Nla::Table(1).kind(), 15);
}

#[test]
fn route_attribute_round_trip() {
    let nlas = vec![
        Nla::Unspec(vec![]),
        Nla::Destination(vec![10, 1, 2, 0]),
        Nla::Iif(u32::MAX),
        Nla::EncapType(u16::MAX),
        Nla::Mark(0),
        Nla::TtlPropagate(vec![1]),
        Nla::Other(DefaultNla::new(1000, vec![1, 2, 3])),
    ];
    for nla in nlas.iter() {
        assert_eq!(decode(&encode(nla)).as_ref(), Ok(nla));
    }
}

#[test]
fn route_header_has_twelve_bytes() {
    let bytes = header_bytes();
    let buf = RouteMessageBuffer::new_checked(&bytes[..]).unwrap();
    assert_eq!(buf.address_family(), 2);
    assert_eq!(RouteHeader::parse(&buf), Ok(header()));
    assert_eq!(buf.payload(), &[][..]);
    assert_eq!(header().buffer_len(), ROUTE_HEADER_LEN);
    let mut buffer = vec![0xff; 14];
    header().emit(&mut buffer[..]);
    assert_eq!(&buffer[..12], &bytes[..]);
    assert_eq!(&buffer[12..], &[0xff, 0xff][..]);
}

#[test]
fn route_header_that_is_cut_short_is_truncated() {
    let bytes = header_bytes();
    assert_eq!(
        RouteMessageBuffer::new_checked(&bytes[..11]).err(),
        Some(DecodeError::Truncated)
    );
}

#[test]
fn route_message_round_trip() {
    let message = RouteMessage {
        header: header(),
        nlas: vec![
            Nla::Destination(vec![10, 1, 2, 0]),
            Nla::Gateway(vec![10, 1, 2, 254]),
            Nla::Oif(7),
            Nla::Table(254),
            Nla::Other(DefaultNla::new(99, vec![1, 2, 3, 4, 5, 6, 7])),
        ],
    };
    assert!(message.is_emittable());
    let len = message.buffer_len();
    assert_eq!(len, 12 + 8 + 8 + 8 + 8 + 12);
    let mut buffer = vec![0xff; len];
    message.emit(&mut buffer[..]);
    let mut expected = header_bytes();
    expected.extend_from_slice(&record(1, &[10, 1, 2, 0]));
    expected.extend_from_slice(&record(5, &[10, 1, 2, 254]));
    expected.extend_from_slice(&record(4, &7u32.to_ne_bytes()));
    expected.extend_from_slice(&record(15, &254u32.to_ne_bytes()));
    expected.extend_from_slice(&record(99, &[1, 2, 3, 4, 5, 6, 7]));
    assert_eq!(buffer, expected);
    let decoded = RouteMessage::parse(&RouteMessageBuffer::new_checked(&buffer[..]).unwrap());
    assert_eq!(decoded, Ok(message));
}

#[test]
fn route_message_written_again_is_the_same_bytes() {
    let mut bytes = header_bytes();
    bytes.extend_from_slice(&record(1, &[10, 1, 2, 0]));
    bytes.extend_from_slice(&record(6, &100u32.to_ne_bytes()));
    bytes.extend_from_slice(&record(300, &[9]));
    let first = RouteMessage::parse(&RouteMessageBuffer::new_checked(&bytes[..]).unwrap())
        .unwrap();
    let mut once = vec![0; first.buffer_len()];
    first.emit(&mut once[..]);
    let second = RouteMessage::parse(&RouteMessageBuffer::new_checked(&once[..]).unwrap())
        .unwrap();
    let mut twice = vec![0; second.buffer_len()];
    second.emit(&mut twice[..]);
    assert_eq!(once, bytes);
    assert_eq!(twice, once);
    assert_eq!(second, first);
}

#[test]
fn route_message_fails_with_its_first_broken_attribute() {
    let mut bytes = header_bytes();
    bytes.extend_from_slice(&record(1, &[10, 1, 2, 0]));
    bytes.extend_from_slice(&record(4, &[1, 2]));
    bytes.extend_from_slice(&[200, 0, 1, 0]);
    let decoded = RouteMessage::parse(&RouteMessageBuffer::new_checked(&bytes[..]).unwrap());
    assert_eq!(decoded, Err(DecodeError::Malformed { name: "RTA_OIF" }));
    let mut bytes = header_bytes();
    bytes.extend_from_slice(&record(1, &[10, 1, 2, 0]));
    bytes.extend_from_slice(&[200, 0, 1, 0]);
    let decoded = RouteMessage::parse(&RouteMessageBuffer::new_checked(&bytes[..]).unwrap());
    assert_eq!(decoded, Err(DecodeError::Truncated));
}

#[test]
fn route_message_keeps_duplicates_and_finds_the_first() {
    let message = RouteMessage {
        header: header(),
        nlas: vec![
            Nla::Oif(1),
            Nla::Gateway(vec![1, 1, 1, 1]),
            Nla::Oif(2),
            Nla::Gateway(vec![2, 2, 2, 2]),
            Nla::Source(vec![3, 3, 3, 3]),
            Nla::Destination(vec![4, 4, 4, 4]),
            Nla::Destination(vec![5, 5, 5, 5]),
        ],
    };
    assert_eq!(message.output_interface(), Some(1));
    assert_eq!(message.input_interface(), None);
    assert_eq!(message.gateway(), Some(&vec![1, 1, 1, 1]));
    assert_eq!(message.source_prefix(), Some((&vec![3, 3, 3, 3], 16)));
    assert_eq!(message.destination_prefix(), Some((&vec![4, 4, 4, 4], 24)));
    let mut buffer = vec![0; message.buffer_len()];
    message.emit(&mut buffer[..]);
    let decoded = RouteMessage::parse(&RouteMessageBuffer::new_checked(&buffer[..]).unwrap());
    assert_eq!(decoded.unwrap().nlas.len(), 7);
}

#[test]
fn route_message_without_attributes_finds_nothing() {
    let message = RouteMessage::default();
    assert_eq!(message.input_interface(), None);
    assert_eq!(message.output_interface(), None);
    assert_eq!(message.gateway(), None);
    assert_eq!(message.source_prefix(), None);
    assert_eq!(message.destination_prefix(), None);
    assert_eq!(message.buffer_len(), 12);
}

#[test]
fn route_input_interface_is_the_first_iif() {
    let message = RouteMessage {
        header: header(),
        nlas: vec![Nla::Oif(1), Nla::Iif(9), Nla::Iif(8)],
    };
    assert_eq!(message.input_interface(), Some(9));
}

#[test]
fn next_hops_fields_lie_in_the_first_eight_bytes() {
    let hops = NextHops { len: 0x0102, flags: 3, hops: 4, interface_id: 0x0506_0708 };
    assert_eq!(hops.buffer_len(), NEXT_HOPS_LEN);
    let mut buffer = vec![0xee; NEXT_HOPS_LEN];
    hops.emit(&mut buffer[..]);
    let mut expected = Vec::new();
    expected.extend_from_slice(&0x0102u16.to_ne_bytes());
    expected.extend_from_slice(&[3, 4]);
    expected.extend_from_slice(&0x0506_0708u32.to_ne_bytes());
    assert_eq!(&buffer[..8], &expected[..]);
    assert_eq!(&buffer[8..], &[0xee; 56][..]);
    let buf = NextHopsBuffer::new_checked(&buffer[..]).unwrap();
    assert_eq!((buf.len(), buf.flags(), buf.hops(), buf.interface_id()), (0x0102, 3, 4, 0x0506_0708));
    assert_eq!(NextHops::parse(&buf), Ok(hops));
}

#[test]
fn next_hops_record_under_sixty_four_bytes_is_truncated() {
    assert_eq!(NextHopsBuffer::new_checked(&[0; 63][..]).err(), Some(DecodeError::Truncated));
    assert!(NextHopsBuffer::new_checked(&[0; 64][..]).is_ok());
}

#[test]
fn address_bytes_are_ipv4_or_ipv6_by_their_length() {
    assert_eq!(ip_address(&[10, 0, 0, 1]), Some(IpAddress::V4([10, 0, 0, 1])));
    let v6 = [0xfe, 0x80, 0, 0, 0, 0, 0, 0, 1, 2, 3, 4, 5, 6, 7, 8];
    assert_eq!(ip_address(&v6), Some(IpAddress::V6(v6)));
    assert_eq!(ip_address(&[]), None);
    assert_eq!(ip_address(&[1, 2, 3]), None);
    assert_eq!(ip_address(&[0; 15]), None);
    assert_eq!(ip_address(&[0; 17]), None);
}
