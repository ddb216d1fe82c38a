use netlink_packet_route::errors::DecodeError;
use netlink_packet_route::nla::{
    buffer_len, buffer_len_all, checked_buffer_len_all, copy_bytes, emit, emit_all, fill_zero,
    nla_align, parse_all, set_kind, set_length, DefaultNla, Nla, NlaBuffer, NlasIterator,
    Parseable, NLA_ALIGNTO, NLA_HEADER_SIZE, NLA_MAX_VALUE_LEN,
};

fn record(kind: u16, value: &[u8]) -> Vec<u8> {
    let mut bytes = Vec::new();
    bytes.extend_from_slice(&((value.len() + 4) as u16).to_ne_bytes());
    bytes.extend_from_slice(&kind.to_ne_bytes());
    bytes.extend_from_slice(value);
    while bytes.len() % 4 != 0 {
        bytes.push(0);
    }
    bytes
}

#[test]
fn align_rounds_up_to_four() {
    assert_eq!(nla_align(0), 0);
    assert_eq!(nla_align(1), 4);
    assert_eq!(nla_align(3), 4);
    assert_eq!(nla_align(4), 4);
    assert_eq!(nla_align(5), 8);
    assert_eq!(nla_align(65531), 65532);
}

#[test]
fn buffer_of_three_bytes_is_truncated() {
    assert_eq!(NlaBuffer::new_checked(&[8, 0, 1][..]).err(), Some(DecodeError::Truncated));
    assert_eq!(NlaBuffer::new_checked(&[][..]).err(), Some(DecodeError::Truncated));
}

#[test]
fn length_beyond_buffer_is_truncated() {
    let mut bytes = record(1, &[1, 2, 3, 4]);
    bytes.truncate(7);
    assert_eq!(NlaBuffer::new_checked(&bytes[..]).err(), Some(DecodeError::Truncated));
}

#[test]
fn length_under_header_is_invalid() {
    let mut bytes = Vec::new();
    bytes.extend_from_slice(&3u16.to_ne_bytes());
    bytes.extend_from_slice(&1u16.to_ne_bytes());
    assert_eq!(NlaBuffer::new_checked(&bytes[..]).err(), Some(DecodeError::InvalidLength));
    bytes[0] = 0;
    bytes[1] = 0;
    assert_eq!(NlaBuffer::new_checked(&bytes[..]).err(), Some(DecodeError::InvalidLength));
}

#[test]
fn view_reads_the_fields_of_a_record() {
    let bytes = record(0x1234, &[9, 8, 7]);
    let buf = NlaBuffer::new_checked(&bytes[..]).unwrap();
    assert_eq!(buf.length(), 7);
    assert_eq!(buf.kind(), 0x1234);
    assert_eq!(buf.value_length(), 3);
    assert_eq!(buf.value(), &[9, 8, 7][..]);
    assert_eq!(buf.into_inner(), &bytes[..]);
}

#[test]
fn view_of_a_longer_buffer_is_bounded_by_the_length() {
    let mut bytes = record(5, &[1, 2, 3, 4, 5]);
    bytes.extend_from_slice(&[0xff; 6]);
    let buf = NlaBuffer::new_checked(&bytes[..]).unwrap();
    assert_eq!(buf.value(), &[1, 2, 3, 4, 5][..]);
}

#[test]
fn walk_yields_the_records_in_order() {
    let mut bytes = record(1, &[0xaa]);
    bytes.extend_from_slice(&record(2, &[]));
    bytes.extend_from_slice(&record(3, &[1, 2, 3, 4, 5, 6]));
    let mut walk = NlasIterator::new(&bytes[..]);
    let first = walk.next().unwrap().unwrap();
    assert_eq!((first.kind(), first.value()), (1, &[0xaa][..]));
    assert_eq!(first.into_inner().len(), 5);
    let second = walk.next().unwrap().unwrap();
    assert_eq!((second.kind(), second.value()), (2, &[][..]));
    let third = walk.next().unwrap().unwrap();
    assert_eq!((third.kind(), third.value()), (3, &[1, 2, 3, 4, 5, 6][..]));
    assert!(walk.next().is_none());
    assert!(walk.next().is_none());
}

#[test]
fn walk_takes_a_last_record_without_padding() {
    let mut bytes = record(1, &[1, 2, 3, 4]);
    bytes.extend_from_slice(&record(2, &[7]));
    bytes.truncate(bytes.len() - 3);
    let mut walk = NlasIterator::new(&bytes[..]);
    assert_eq!(walk.next().unwrap().unwrap().kind(), 1);
    let last = walk.next().unwrap().unwrap();
    assert_eq!((last.kind(), last.value()), (2, &[7][..]));
    assert!(walk.next().is_none());
}

#[test]
fn walk_ends_after_a_failure() {
    let mut bytes = record(1, &[1, 2, 3, 4]);
    bytes.extend_from_slice(&[12, 0]);
    let mut walk = NlasIterator::new(&bytes[..]);
    assert!(walk.next().unwrap().is_ok());
    assert_eq!(walk.next().unwrap().err(), Some(DecodeError::Truncated));
    assert!(walk.next().is_none());
}

#[test]
fn walk_does_not_check_the_padding() {
    let mut bytes = record(1, &[1]);
    bytes[5] = 0xee;
    bytes[6] = 0xee;
    bytes[7] = 0xee;
    bytes.extend_from_slice(&record(2, &[2]));
    let nlas: Vec<DefaultNla> = parse_all(&bytes[..]).unwrap();
    assert_eq!(nlas, vec![DefaultNla::new(1, vec![1]), DefaultNla::new(2, vec![2])]);
}

#[test]
fn default_nla_keeps_kind_and_value() {
    let bytes = record(0xbeef, &[1, 2, 3]);
    let buf = NlaBuffer::new_checked(&bytes[..]).unwrap();
    let nla = DefaultNla::parse(&buf).unwrap();
    assert_eq!(nla, DefaultNla::new(0xbeef, vec![1, 2, 3]));
    assert_eq!(nla.kind(), 0xbeef);
    assert_eq!(nla.value_len(), 3);
    assert_eq!(nla.value(), &vec![1, 2, 3]);
    assert!(nla.is_emittable());
}

#[test]
fn value_that_the_length_field_cannot_hold_is_not_emittable() {
    assert!(DefaultNla::new(1, vec![0; NLA_MAX_VALUE_LEN]).is_emittable());
    assert!(!DefaultNla::new(1, vec![0; NLA_MAX_VALUE_LEN + 1]).is_emittable());
}

#[test]
fn emit_writes_header_value_and_zero_padding() {
    let nla = DefaultNla::new(7, vec![1, 2, 3, 4, 5]);
    assert_eq!(buffer_len(&nla), NLA_HEADER_SIZE + 8);
    let mut buffer = vec![0xff; 12];
    emit(&nla, &mut buffer[..]);
    assert_eq!(buffer, record(7, &[1, 2, 3, 4, 5]));
    assert_eq!(&buffer[9..], &[0, 0, 0][..]);
}

#[test]
fn emit_leaves_what_lies_behind_the_record() {
    let nla = DefaultNla::new(7, vec![1]);
    let mut buffer = vec![0xff; 11];
    emit(&nla, &mut buffer[..]);
    assert_eq!(&buffer[..8], &record(7, &[1])[..]);
    assert_eq!(&buffer[8..], &[0xff, 0xff, 0xff][..]);
}

#[test]
fn emit_value_writes_the_value_alone() {
    let nla = DefaultNla::new(7, vec![4, 5, 6]);
    let mut buffer = vec![0; 3];
    nla.emit_value(&mut buffer[..]);
    assert_eq!(buffer, vec![4, 5, 6]);
}

#[test]
fn length_of_a_sequence_is_the_sum_of_the_padded_records() {
    let nlas = vec![
        DefaultNla::new(1, vec![]),
        DefaultNla::new(2, vec![1]),
        DefaultNla::new(3, vec![1, 2, 3, 4]),
        DefaultNla::new(4, vec![1, 2, 3, 4, 5]),
    ];
    assert_eq!(buffer_len_all(&nlas[..]), 4 + 8 + 8 + 12);
    assert_eq!(buffer_len_all::<DefaultNla>(&[]), 0);
    assert_eq!(checked_buffer_len_all(&nlas[..], 32), Some(32));
    assert_eq!(checked_buffer_len_all(&nlas[..], 31), None);
}

#[test]
fn emitted_sequence_is_as_long_as_its_buffer_len_and_decodes_to_itself() {
    let nlas = vec![
        DefaultNla::new(1, vec![0xaa]),
        DefaultNla::new(2, vec![]),
        DefaultNla::new(0xffff, vec![1, 2, 3, 4, 5, 6, 7]),
    ];
    let len = buffer_len_all(&nlas[..]);
    assert_eq!(len % 4, 0);
    let mut buffer = vec![0xff; len];
    emit_all(&nlas[..], &mut buffer[..]);
    let mut expected = record(1, &[0xaa]);
    expected.extend_from_slice(&record(2, &[]));
    expected.extend_from_slice(&record(0xffff, &[1, 2, 3, 4, 5, 6, 7]));
    assert_eq!(buffer, expected);
    let decoded: Vec<DefaultNla> = parse_all(&buffer[..]).unwrap();
    assert_eq!(decoded, nlas);
}

#[test]
fn sequence_with_a_broken_record_fails_as_a_whole() {
    let mut bytes = record(1, &[1]);
    bytes.extend_from_slice(&[2, 0, 1, 0]);
    assert_eq!(parse_all::<DefaultNla>(&bytes[..]).err(), Some(DecodeError::InvalidLength));
    assert_eq!(parse_all::<DefaultNla>(&[1, 0, 0][..]).err(), Some(DecodeError::Truncated));
}

#[test]
fn empty_buffer_holds_no_attributes() {
    assert_eq!(parse_all::<DefaultNla>(&[][..]).unwrap(), vec![]);
}

#[test]
fn copy_bytes_copies_all() {
    let mut dst = vec![0; 4];
    copy_bytes(&mut dst[..], &[1, 2, 3, 4]);
    assert_eq!(dst, vec![1, 2, 3, 4]);
}

#[test]
fn nested_error_keeps_its_cause() {
    let inner = DecodeError::Truncated;
    assert!(inner.is_truncation());
    let outer = inner.nested_in("IFLA_AF_SPEC");
    assert!(outer.is_truncation());
    assert!(outer.nested_in("X").is_truncation());
    assert!(!DecodeError::Malformed { name: "X" }.nested_in("Y").is_truncation());
    let outer = DecodeError::Truncated.nested_in("IFLA_AF_SPEC");
    assert_eq!(
        outer,
        DecodeError::Nested { name: "IFLA_AF_SPEC", cause: Box::new(DecodeError::Truncated) }
    );
}

#[test]
fn header_fields_are_written_at_their_offsets() {
    let mut buffer = vec![0xee; 6];
    set_length(&mut buffer[..], 6);
    set_kind(&mut buffer[..], 0x0a0b);
    let mut expected = Vec::new();
    expected.extend_from_slice(&6u16.to_ne_bytes());
    expected.extend_from_slice(&0x0a0bu16.to_ne_bytes());
    expected.extend_from_slice(&[0xee, 0xee]);
    assert_eq!(buffer, expected);
    let buf = NlaBuffer::new_checked(&buffer[..]).unwrap();
    assert_eq!((buf.length(), buf.kind()), (6, 0x0a0b));
}

#[test]
fn fill_zero_clears_every_byte() {
    let mut buffer = vec![1, 2, 3];
    fill_zero(&mut buffer[..]);
    assert_eq!(buffer, vec![0, 0, 0]);
    assert_eq!(NLA_ALIGNTO, 4);
}
