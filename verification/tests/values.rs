use netlink_packet_route::byte_order::{get_u16, get_u32, get_u64, put_u16, put_u32, put_u64};
use netlink_packet_route::errors::DecodeError;
use netlink_packet_route::parsers::{parse_i32, parse_string, parse_u16, parse_u32, parse_u8};

fn malformed(name: &'static str) -> DecodeError {
    DecodeError::Malformed { name }
}

#[test]
fn one_byte_number() {
    assert_eq!(parse_u8(&[7], "X"), Ok(7));
    assert_eq!(parse_u8(&[], "X"), Err(malformed("X")));
    assert_eq!(parse_u8(&[1, 2], "X"), Err(malformed("X")));
}

#[test]
fn two_byte_number_in_native_order() {
    assert_eq!(parse_u16(&0x1234u16.to_ne_bytes(), "X"), Ok(0x1234));
    assert_eq!(parse_u16(&[1], "X"), Err(malformed("X")));
    assert_eq!(parse_u16(&[1, 2, 3], "X"), Err(malformed("X")));
}

#[test]
fn four_byte_number_in_native_order() {
    assert_eq!(parse_u32(&1500u32.to_ne_bytes(), "X"), Ok(1500));
    assert_eq!(parse_u32(&0xdead_beefu32.to_ne_bytes(), "X"), Ok(0xdead_beef));
    assert_eq!(parse_u32(&[1, 2, 3], "X"), Err(malformed("X")));
    assert_eq!(parse_u32(&[1, 2, 3, 4, 5], "X"), Err(malformed("X")));
}

#[test]
fn signed_number_in_native_order() {
    assert_eq!(parse_i32(&(-2i32).to_ne_bytes(), "X"), Ok(-2));
    assert_eq!(parse_i32(&i32::MIN.to_ne_bytes(), "X"), Ok(i32::MIN));
    assert_eq!(parse_i32(&i32::MAX.to_ne_bytes(), "X"), Ok(i32::MAX));
    assert_eq!(parse_i32(&[0; 8], "X"), Err(malformed("X")));
}

#[test]
fn text_ends_in_a_zero_byte() {
    assert_eq!(parse_string(b"eth0\0", "X"), Ok(String::from("eth0")));
    assert_eq!(parse_string(b"\0", "X"), Ok(String::new()));
    assert_eq!(parse_string("zażółć\0".as_bytes(), "X"), Ok(String::from("zażółć")));
}

#[test]
fn text_keeps_all_but_the_last_zero_byte() {
    assert_eq!(parse_string(b"a\0\0", "X"), Ok(String::from("a\0")));
}

#[test]
fn text_without_terminator_is_malformed() {
    assert_eq!(parse_string(b"eth0", "IFLA_IFNAME"), Err(malformed("IFLA_IFNAME")));
    assert_eq!(parse_string(b"", "IFLA_IFNAME"), Err(malformed("IFLA_IFNAME")));
}

#[test]
fn text_that_is_not_utf8_is_malformed() {
    assert_eq!(parse_string(&[0xff, 0xfe, 0], "X"), Err(malformed("X")));
    assert_eq!(parse_string(&[0xc3, 0], "X"), Err(malformed("X")));
}

#[test]
fn numbers_at_an_offset_are_read_in_native_order() {
    let mut bytes = vec![0xaa];
    bytes.extend_from_slice(&0x0102u16.to_ne_bytes());
    bytes.extend_from_slice(&0x0304_0506u32.to_ne_bytes());
    bytes.extend_from_slice(&0x0708_090a_0b0c_0d0eu64.to_ne_bytes());
    bytes.push(0xbb);
    assert_eq!(get_u16(&bytes[..], 1), 0x0102);
    assert_eq!(get_u32(&bytes[..], 3), 0x0304_0506);
    assert_eq!(get_u64(&bytes[..], 7), 0x0708_090a_0b0c_0d0e);
}

#[test]
fn numbers_at_an_offset_are_written_in_native_order() {
    let mut bytes = vec![0xee; 16];
    put_u16(&mut bytes[..], 1, 0x0102);
    put_u32(&mut bytes[..], 3, 0x0304_0506);
    put_u64(&mut bytes[..], 7, 0x0708_090a_0b0c_0d0e);
    let mut expected = vec![0xee];
    expected.extend_from_slice(&0x0102u16.to_ne_bytes());
    expected.extend_from_slice(&0x0304_0506u32.to_ne_bytes());
    expected.extend_from_slice(&0x0708_090a_0b0c_0d0eu64.to_ne_bytes());
    expected.push(0xee);
    assert_eq!(bytes, expected);
}

#[test]
fn error_names_the_kind_and_keeps_the_cause() {
    let inner = DecodeError::Malformed { name: "IFLA_INET6_FLAGS" };
    assert_eq!(inner.name(), Some("IFLA_INET6_FLAGS"));
    assert_eq!(inner.cause(), None);
    let outer = inner.nested_in("AF_INET6");
    assert_eq!(outer.name(), Some("AF_INET6"));
    assert_eq!(outer.cause(), Some(&DecodeError::Malformed { name: "IFLA_INET6_FLAGS" }));
    assert_eq!(DecodeError::Truncated.name(), None);
    assert_eq!(DecodeError::InvalidLength.name(), None);
    assert_eq!(DecodeError::InvalidLength.cause(), None);
    assert!(!DecodeError::InvalidLength.is_truncation());
}
