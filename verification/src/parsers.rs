//! The values that attributes hold: numbers of a fixed width in the byte
//! order of the machine, and text that ends in a zero byte.
//!
//! Each decoder takes the symbolic name of the kind it decodes for, and
//! reports a value of the wrong shape as `Malformed` under that name.

use crate::byte_order::{
    native_i32, native_u16, native_u32, read_i32, read_u16, read_u32,
};
use crate::errors::DecodeError;
use crate::nla::result_view;
use vstd::prelude::*;
use vstd::slice::slice_to_vec;
use vstd::utf8::{decode_utf8, encode_utf8, valid_utf8};

verus! {

/// What a one-byte value decodes to.
pub open spec fn u8_value(p: Seq<u8>, name: &'static str) -> Result<u8, DecodeError> {
    if p.len() == 1 {
        Ok(p[0])
    } else {
        Err(DecodeError::Malformed { name })
    }
}

/// What a two-byte value decodes to.
pub open spec fn u16_value(p: Seq<u8>, name: &'static str) -> Result<u16, DecodeError> {
    if p.len() == 2 {
        Ok(native_u16(p))
    } else {
        Err(DecodeError::Malformed { name })
    }
}

/// What a four-byte value decodes to as an unsigned number.
pub open spec fn u32_value(p: Seq<u8>, name: &'static str) -> Result<u32, DecodeError> {
    if p.len() == 4 {
        Ok(native_u32(p))
    } else {
        Err(DecodeError::Malformed { name })
    }
}

/// What a four-byte value decodes to as a signed number.
pub open spec fn i32_value(p: Seq<u8>, name: &'static str) -> Result<i32, DecodeError> {
    if p.len() == 4 {
        Ok(native_i32(p))
    } else {
        Err(DecodeError::Malformed { name })
    }
}

/// Whether `p` is text on the wire: UTF-8 followed by one zero byte.
pub open spec fn is_text(p: Seq<u8>) -> bool {
    p.len() > 0 && p.last() == 0 && valid_utf8(p.drop_last())
}

/// What a text value decodes to: the characters before the final zero byte.
pub open spec fn text_value(p: Seq<u8>, name: &'static str) -> Result<Seq<char>, DecodeError> {
    if is_text(p) {
        Ok(decode_utf8(p.drop_last()))
    } else {
        Err(DecodeError::Malformed { name })
    }
}

/// The bytes of a text value: the text in UTF-8 and a zero byte. The empty
/// text is the lone zero byte.
pub open spec fn text_bytes(s: Seq<char>) -> Seq<u8> {
    encode_utf8(s).push(0u8)
}

/// Text that is written and decoded again is the same text.
pub proof fn lemma_text_round_trip(s: Seq<char>, name: &'static str)
    ensures
        text_value(text_bytes(s), name) == Ok::<Seq<char>, DecodeError>(s),
{
    vstd::utf8::encode_utf8_valid_utf8(s);
    vstd::utf8::encode_utf8_decode_utf8(s);
    assert(text_bytes(s).drop_last() =~= encode_utf8(s));
}

/// Bytes that decode to a text are the bytes of that text.
pub proof fn lemma_text_bytes_of_value(p: Seq<u8>, name: &'static str)
    requires
        is_text(p),
    ensures
        text_bytes(text_value(p, name)->Ok_0) == p,
{
    vstd::utf8::decode_utf8_encode_utf8(p.drop_last());
    assert(p.drop_last().push(0u8) =~= p);
}

/// `String::from_utf8` of std: the string whose UTF-8 form is `bytes`, or
/// nothing where `bytes` is not UTF-8.
#[verifier::external_body]
fn string_from_utf8(bytes: Vec<u8>) -> (r: Option<String>)
    ensures
        r is Some <==> valid_utf8(bytes@),
        r is Some ==> r->Some_0@ == decode_utf8(bytes@),
{
    String::from_utf8(bytes).ok()
}

/// Decodes a one-byte value.
pub fn parse_u8(payload: &[u8], name: &'static str) -> (r: Result<u8, DecodeError>)
    ensures
        r == u8_value(payload@, name),
{
    if payload.len() != 1 {
        return Err(DecodeError::Malformed { name });
    }
    Ok(payload[0])
}

/// Decodes a two-byte value.
pub fn parse_u16(payload: &[u8], name: &'static str) -> (r: Result<u16, DecodeError>)
    ensures
        r == u16_value(payload@, name),
{
    if payload.len() != 2 {
        return Err(DecodeError::Malformed { name });
    }
    assert(payload@.subrange(0, 2) =~= payload@);
    Ok(read_u16(payload))
}

/// Decodes a four-byte value as an unsigned number.
pub fn parse_u32(payload: &[u8], name: &'static str) -> (r: Result<u32, DecodeError>)
    ensures
        r == u32_value(payload@, name),
{
    if payload.len() != 4 {
        return Err(DecodeError::Malformed { name });
    }
    assert(payload@.subrange(0, 4) =~= payload@);
    Ok(read_u32(payload))
}

/// Decodes a four-byte value as a signed number.
pub fn parse_i32(payload: &[u8], name: &'static str) -> (r: Result<i32, DecodeError>)
    ensures
        r == i32_value(payload@, name),
{
    if payload.len() != 4 {
        return Err(DecodeError::Malformed { name });
    }
    assert(payload@.subrange(0, 4) =~= payload@);
    Ok(read_i32(payload))
}

/// Decodes a text value: the final zero byte is taken off, and what is
/// left has to be UTF-8.
pub fn parse_string(payload: &[u8], name: &'static str) -> (r: Result<String, DecodeError>)
    ensures
        result_view(r) == text_value(payload@, name),
{
    let n: usize = payload.len();
    if n == 0 || payload[n - 1] != 0 {
        return Err(DecodeError::Malformed { name });
    }
    let text = &payload[0..n - 1];
    assert(text@ =~= payload@.drop_last());
    match string_from_utf8(slice_to_vec(text)) {
        Some(s) => Ok(s),
        None => Err(DecodeError::Malformed { name }),
    }
}

} // verus!
