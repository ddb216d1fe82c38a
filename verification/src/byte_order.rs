//! Integers on the wire: two, four and eight bytes in the byte order of the
//! machine.
//!
//! The specification functions are closed, so that proofs elsewhere go by
//! the lemmas of this module: the round trips, and the digits of a number
//! in each byte order.

use byteorder::{ByteOrder, NativeEndian};
use vstd::endian::{endianness, Endian};
use vstd::prelude::*;

verus! {

/// The two bytes of `x`, least significant first.
pub closed spec fn le_u16_bytes(x: u16) -> Seq<u8> {
    seq![(x % 256) as u8, (x / 256) as u8]
}

/// The two bytes of `x`, most significant first.
pub closed spec fn be_u16_bytes(x: u16) -> Seq<u8> {
    seq![(x / 256) as u8, (x % 256) as u8]
}

/// The number whose bytes, least significant first, are `b[0]` and `b[1]`.
pub closed spec fn le_u16(b: Seq<u8>) -> u16 {
    (b[0] + 256 * b[1]) as u16
}

/// The number whose bytes, most significant first, are `b[0]` and `b[1]`.
pub closed spec fn be_u16(b: Seq<u8>) -> u16 {
    (256 * b[0] + b[1]) as u16
}

/// The four bytes of `x`, least significant first.
pub closed spec fn le_u32_bytes(x: u32) -> Seq<u8> {
    seq![
        (x % 256) as u8,
        (x / 256 % 256) as u8,
        (x / 256 / 256 % 256) as u8,
        (x / 256 / 256 / 256) as u8,
    ]
}

/// The four bytes of `x`, most significant first.
pub closed spec fn be_u32_bytes(x: u32) -> Seq<u8> {
    seq![
        (x / 256 / 256 / 256) as u8,
        (x / 256 / 256 % 256) as u8,
        (x / 256 % 256) as u8,
        (x % 256) as u8,
    ]
}

/// The number whose bytes, least significant first, are `b[0]` to `b[3]`.
pub closed spec fn le_u32(b: Seq<u8>) -> u32 {
    (b[0] + 256 * (b[1] + 256 * (b[2] + 256 * b[3]))) as u32
}

/// The number whose bytes, most significant first, are `b[0]` to `b[3]`.
pub closed spec fn be_u32(b: Seq<u8>) -> u32 {
    (b[3] + 256 * (b[2] + 256 * (b[1] + 256 * b[0]))) as u32
}

/// The eight bytes of `x`, least significant first.
pub closed spec fn le_u64_bytes(x: u64) -> Seq<u8> {
    le_u32_bytes((x % 0x1_0000_0000) as u32) + le_u32_bytes((x / 0x1_0000_0000) as u32)
}

/// The eight bytes of `x`, most significant first.
pub closed spec fn be_u64_bytes(x: u64) -> Seq<u8> {
    be_u32_bytes((x / 0x1_0000_0000) as u32) + be_u32_bytes((x % 0x1_0000_0000) as u32)
}

/// The number whose bytes, least significant first, are `b[0]` to `b[7]`.
pub closed spec fn le_u64(b: Seq<u8>) -> u64 {
    (le_u32(b.subrange(0, 4)) + 0x1_0000_0000 * le_u32(b.subrange(4, 8))) as u64
}

/// The number whose bytes, most significant first, are `b[0]` to `b[7]`.
pub closed spec fn be_u64(b: Seq<u8>) -> u64 {
    (0x1_0000_0000 * be_u32(b.subrange(0, 4)) + be_u32(b.subrange(4, 8))) as u64
}

/// The two bytes of `x` in the byte order of the machine.
pub closed spec fn native_u16_bytes(x: u16) -> Seq<u8> {
    match endianness() {
        Endian::Little => le_u16_bytes(x),
        Endian::Big => be_u16_bytes(x),
    }
}

/// The number that the first two bytes of `b` hold in the byte order of the machine.
pub closed spec fn native_u16(b: Seq<u8>) -> u16 {
    match endianness() {
        Endian::Little => le_u16(b),
        Endian::Big => be_u16(b),
    }
}

/// The four bytes of `x` in the byte order of the machine.
pub closed spec fn native_u32_bytes(x: u32) -> Seq<u8> {
    match endianness() {
        Endian::Little => le_u32_bytes(x),
        Endian::Big => be_u32_bytes(x),
    }
}

/// The number that the first four bytes of `b` hold in the byte order of the machine.
pub closed spec fn native_u32(b: Seq<u8>) -> u32 {
    match endianness() {
        Endian::Little => le_u32(b),
        Endian::Big => be_u32(b),
    }
}

/// The eight bytes of `x` in the byte order of the machine.
pub closed spec fn native_u64_bytes(x: u64) -> Seq<u8> {
    match endianness() {
        Endian::Little => le_u64_bytes(x),
        Endian::Big => be_u64_bytes(x),
    }
}

/// The number that the first eight bytes of `b` hold in the byte order of the machine.
pub closed spec fn native_u64(b: Seq<u8>) -> u64 {
    match endianness() {
        Endian::Little => le_u64(b),
        Endian::Big => be_u64(b),
    }
}

/// The bit pattern of `x` in two's complement, read as an unsigned number.
pub open spec fn i32_bits(x: i32) -> u32 {
    if x < 0 {
        (x + 0x1_0000_0000) as u32
    } else {
        x as u32
    }
}

/// The signed number whose two's complement bit pattern is `x`.
pub open spec fn i32_of_bits(x: u32) -> i32 {
    if x >= 0x8000_0000 {
        (x - 0x1_0000_0000) as i32
    } else {
        x as i32
    }
}

/// The four bytes of `x` in the byte order of the machine.
pub open spec fn native_i32_bytes(x: i32) -> Seq<u8> {
    native_u32_bytes(i32_bits(x))
}

/// The signed number that the first four bytes of `b` hold in the byte order of the machine.
pub open spec fn native_i32(b: Seq<u8>) -> i32 {
    i32_of_bits(native_u32(b))
}

/// What the bytes of a 16-bit number are, and which number two bytes hold,
/// in each byte order.
pub proof fn lemma_u16_digits(x: u16, b: Seq<u8>)
    ensures
        endianness() is Little ==> native_u16_bytes(x) == seq![(x % 256) as u8, (x / 256) as u8]
            && native_u16(b) == b[0] + 256 * b[1],
        endianness() is Big ==> native_u16_bytes(x) == seq![(x / 256) as u8, (x % 256) as u8]
            && native_u16(b) == 256 * b[0] + b[1],
{
}

/// What the bytes of a 32-bit number are, and which number four bytes hold,
/// in each byte order.
pub proof fn lemma_u32_digits(x: u32, b: Seq<u8>)
    ensures
        endianness() is Little ==> native_u32_bytes(x) == seq![
            (x % 256) as u8,
            (x / 256 % 256) as u8,
            (x / 65536 % 256) as u8,
            (x / 16777216) as u8,
        ] && native_u32(b) == b[0] + 256 * b[1] + 65536 * b[2] + 16777216 * b[3],
        endianness() is Big ==> native_u32_bytes(x) == seq![
            (x / 16777216) as u8,
            (x / 65536 % 256) as u8,
            (x / 256 % 256) as u8,
            (x % 256) as u8,
        ] && native_u32(b) == 16777216 * b[0] + 65536 * b[1] + 256 * b[2] + b[3],
{
    assert(x / 256 / 256 == x / 65536);
    assert(x / 256 / 256 / 256 == x / 16777216);
}

/// The bytes of a 64-bit number are those of its two 32-bit halves, the
/// lower half first where the least significant byte comes first.
pub proof fn lemma_u64_digits(x: u64, b: Seq<u8>)
    ensures
        endianness() is Little ==> native_u64_bytes(x) == native_u32_bytes(
            (x % 0x1_0000_0000) as u32,
        ) + native_u32_bytes((x / 0x1_0000_0000) as u32) && native_u64(b) == native_u32(
            b.subrange(0, 4),
        ) + 0x1_0000_0000 * native_u32(b.subrange(4, 8)),
        endianness() is Big ==> native_u64_bytes(x) == native_u32_bytes(
            (x / 0x1_0000_0000) as u32,
        ) + native_u32_bytes((x % 0x1_0000_0000) as u32) && native_u64(b) == 0x1_0000_0000
            * native_u32(b.subrange(0, 4)) + native_u32(b.subrange(4, 8)),
{
}

/// Writing a 16-bit number and reading it back gives the number, and the
/// other way round for any two bytes.
pub proof fn lemma_u16_round_trip(x: u16, b: Seq<u8>)
    ensures
        native_u16_bytes(x).len() == 2,
        native_u16(native_u16_bytes(x)) == x,
        b.len() == 2 ==> native_u16_bytes(native_u16(b)) == b,
{
    if b.len() == 2 {
        assert(le_u16_bytes(le_u16(b)) =~= b);
        assert(be_u16_bytes(be_u16(b)) =~= b);
    }
}

/// Writing a 32-bit number and reading it back gives the number, and the
/// other way round for any four bytes.
pub proof fn lemma_u32_round_trip(x: u32, b: Seq<u8>)
    ensures
        native_u32_bytes(x).len() == 4,
        native_u32(native_u32_bytes(x)) == x,
        b.len() == 4 ==> native_u32_bytes(native_u32(b)) == b,
{
    lemma_digits(x);
    if b.len() == 4 {
        lemma_number(b[0], b[1], b[2], b[3]);
        lemma_number(b[3], b[2], b[1], b[0]);
        assert(le_u32_bytes(le_u32(b)) =~= b);
        assert(be_u32_bytes(be_u32(b)) =~= b);
    }
}

/// The four base-256 digits of `x` add up to `x`.
proof fn lemma_digits(x: u32)
    ensures
        x % 256 + 256 * (x / 256 % 256 + 256 * (x / 256 / 256 % 256 + 256 * (x / 256 / 256 / 256)))
            == x,
        x / 256 / 256 / 256 < 256,
{
    let q1 = x / 256;
    let q2 = q1 / 256;
    let q3 = q2 / 256;
    assert(x == 256 * q1 + x % 256);
    assert(q1 == 256 * q2 + q1 % 256);
    assert(q2 == 256 * q3 + q2 % 256);
}

/// The number made of four base-256 digits has those digits.
proof fn lemma_number(b0: u8, b1: u8, b2: u8, b3: u8)
    ensures
        ({
            let n = b0 + 256 * (b1 + 256 * (b2 + 256 * b3));
            &&& 0 <= n <= u32::MAX
            &&& n % 256 == b0
            &&& n / 256 % 256 == b1
            &&& n / 256 / 256 % 256 == b2
            &&& n / 256 / 256 / 256 == b3
        }),
{
    let n2 = b2 + 256 * b3;
    let n1 = b1 + 256 * n2;
    let n = b0 + 256 * n1;
    assert(n / 256 == n1 && n % 256 == b0);
    assert(n1 / 256 == n2 && n1 % 256 == b1);
    assert(n2 / 256 == b3 && n2 % 256 == b2);
}

/// Writing a 64-bit number and reading it back gives the number, and the
/// other way round for any eight bytes.
pub proof fn lemma_u64_round_trip(x: u64, b: Seq<u8>)
    ensures
        native_u64_bytes(x).len() == 8,
        native_u64(native_u64_bytes(x)) == x,
        b.len() == 8 ==> native_u64_bytes(native_u64(b)) == b,
{
    lemma_halves(x);
    if b.len() == 8 {
        lemma_whole(b);
    }
}

/// The two 32-bit halves of `x` are read back from its eight bytes.
proof fn lemma_halves(x: u64)
    ensures
        le_u64_bytes(x).len() == 8,
        be_u64_bytes(x).len() == 8,
        le_u64(le_u64_bytes(x)) == x,
        be_u64(be_u64_bytes(x)) == x,
{
    let low = (x % 0x1_0000_0000) as u32;
    let high = (x / 0x1_0000_0000) as u32;
    assert(x == low + 0x1_0000_0000 * high);
    lemma_digits(low);
    lemma_digits(high);
    let l = le_u32_bytes(low);
    let h = le_u32_bytes(high);
    assert(le_u32(l) == low);
    assert(le_u32(h) == high);
    assert((l + h).subrange(0, 4) =~= l);
    assert((l + h).subrange(4, 8) =~= h);
    let l = be_u32_bytes(low);
    let h = be_u32_bytes(high);
    assert(be_u32(l) == low);
    assert(be_u32(h) == high);
    assert((h + l).subrange(0, 4) =~= h);
    assert((h + l).subrange(4, 8) =~= l);
}

/// Eight bytes are the bytes of the number that they hold.
proof fn lemma_whole(b: Seq<u8>)
    requires
        b.len() == 8,
    ensures
        le_u64_bytes(le_u64(b)) == b,
        be_u64_bytes(be_u64(b)) == b,
{
    let first = b.subrange(0, 4);
    let second = b.subrange(4, 8);
    lemma_number(first[0], first[1], first[2], first[3]);
    lemma_number(second[0], second[1], second[2], second[3]);
    lemma_number(first[3], first[2], first[1], first[0]);
    lemma_number(second[3], second[2], second[1], second[0]);
    assert(first + second =~= b);
    assert(le_u32_bytes(le_u32(first)) =~= first);
    assert(le_u32_bytes(le_u32(second)) =~= second);
    assert(be_u32_bytes(be_u32(first)) =~= first);
    assert(be_u32_bytes(be_u32(second)) =~= second);
    let n = le_u32(first) + 0x1_0000_0000 * le_u32(second);
    assert(n % 0x1_0000_0000 == le_u32(first) && n / 0x1_0000_0000 == le_u32(second));
    let m = 0x1_0000_0000 * be_u32(first) + be_u32(second);
    assert(m % 0x1_0000_0000 == be_u32(second) && m / 0x1_0000_0000 == be_u32(first));
}

/// Writing a signed 32-bit number and reading it back gives the number, and
/// the other way round for any four bytes.
pub proof fn lemma_i32_round_trip(x: i32, b: Seq<u8>)
    ensures
        native_i32_bytes(x).len() == 4,
        native_i32(native_i32_bytes(x)) == x,
        b.len() == 4 ==> native_i32_bytes(native_i32(b)) == b,
{
    lemma_u32_round_trip(i32_bits(x), b);
}

/// `byteorder::NativeEndian::read_u16`: the number that the first two bytes
/// of `buf` hold in the byte order of the machine. The outside function
/// panics on a shorter slice.
#[verifier::external_body]
pub(crate) fn read_u16(buf: &[u8]) -> (r: u16)
    requires
        buf@.len() >= 2,
    ensures
        r == native_u16(buf@.subrange(0, 2)),
{
    NativeEndian::read_u16(buf)
}

/// `byteorder::NativeEndian::read_u32`: the number that the first four bytes
/// of `buf` hold in the byte order of the machine. The outside function
/// panics on a shorter slice.
#[verifier::external_body]
pub(crate) fn read_u32(buf: &[u8]) -> (r: u32)
    requires
        buf@.len() >= 4,
    ensures
        r == native_u32(buf@.subrange(0, 4)),
{
    NativeEndian::read_u32(buf)
}

/// `byteorder::NativeEndian::read_u64`: the number that the first eight
/// bytes of `buf` hold in the byte order of the machine. The outside
/// function panics on a shorter slice.
#[verifier::external_body]
pub(crate) fn read_u64(buf: &[u8]) -> (r: u64)
    requires
        buf@.len() >= 8,
    ensures
        r == native_u64(buf@.subrange(0, 8)),
{
    NativeEndian::read_u64(buf)
}

/// `byteorder::NativeEndian::read_i32`: the first four bytes of `buf`, read
/// as by `read_u32` and taken as a two's complement number. The outside
/// function panics on a shorter slice.
#[verifier::external_body]
pub(crate) fn read_i32(buf: &[u8]) -> (r: i32)
    requires
        buf@.len() >= 4,
    ensures
        r == native_i32(buf@.subrange(0, 4)),
{
    NativeEndian::read_i32(buf)
}

/// `byteorder::NativeEndian::write_u16`: puts the two bytes of `n`, in the
/// byte order of the machine, at the start of `buf` and leaves the rest as
/// it was. The outside function panics on a shorter slice.
#[verifier::external_body]
pub(crate) fn write_u16(buf: &mut [u8], n: u16)
    requires
        old(buf)@.len() >= 2,
    ensures
        final(buf)@ == native_u16_bytes(n) + old(buf)@.subrange(2, old(buf)@.len() as int),
{
    NativeEndian::write_u16(buf, n)
}

/// `byteorder::NativeEndian::write_u32`: puts the four bytes of `n`, in the
/// byte order of the machine, at the start of `buf` and leaves the rest as
/// it was. The outside function panics on a shorter slice.
#[verifier::external_body]
pub(crate) fn write_u32(buf: &mut [u8], n: u32)
    requires
        old(buf)@.len() >= 4,
    ensures
        final(buf)@ == native_u32_bytes(n) + old(buf)@.subrange(4, old(buf)@.len() as int),
{
    NativeEndian::write_u32(buf, n)
}

/// `byteorder::NativeEndian::write_u64`: puts the eight bytes of `n`, in
/// the byte order of the machine, at the start of `buf` and leaves the rest
/// as it was. The outside function panics on a shorter slice.
#[verifier::external_body]
pub(crate) fn write_u64(buf: &mut [u8], n: u64)
    requires
        old(buf)@.len() >= 8,
    ensures
        final(buf)@ == native_u64_bytes(n) + old(buf)@.subrange(8, old(buf)@.len() as int),
{
    NativeEndian::write_u64(buf, n)
}

/// `byteorder::NativeEndian::write_i32`: writes the two's complement bit
/// pattern of `n` as `write_u32` does. The outside function panics on a
/// shorter slice.
#[verifier::external_body]
pub(crate) fn write_i32(buf: &mut [u8], n: i32)
    requires
        old(buf)@.len() >= 4,
    ensures
        final(buf)@ == native_i32_bytes(n) + old(buf)@.subrange(4, old(buf)@.len() as int),
{
    NativeEndian::write_i32(buf, n)
}

/// The 16-bit number at the byte offset `offset` of `buf`.
pub fn get_u16(buf: &[u8], offset: usize) -> (r: u16)
    requires
        offset + 2 <= buf@.len(),
    ensures
        r == native_u16(buf@.subrange(offset as int, offset + 2)),
{
    assert(buf.len() == buf@.len());
    let field = &buf[offset..offset + 2];
    assert(field@.subrange(0, 2) == field@);
    read_u16(field)
}

/// Writes the 16-bit number `n` at the byte offset `offset` of `buf` and
/// leaves the other bytes as they were.
pub fn put_u16(buf: &mut [u8], offset: usize, n: u16)
    requires
        offset + 2 <= old(buf)@.len(),
    ensures
        final(buf)@ == old(buf)@.take(offset as int) + native_u16_bytes(n) + old(buf)@.skip(
            offset + 2,
        ),
        final(buf)@.len() == old(buf)@.len(),
{
    let (_before, rest) = buf.split_at_mut(offset);
    write_u16(rest, n);
    proof {
        lemma_u16_round_trip(n, Seq::empty());
        assert(buf@ =~= old(buf)@.take(offset as int) + native_u16_bytes(n) + old(buf)@.skip(
            offset + 2,
        ));
    }
}

/// The 32-bit number at the byte offset `offset` of `buf`.
pub fn get_u32(buf: &[u8], offset: usize) -> (r: u32)
    requires
        offset + 4 <= buf@.len(),
    ensures
        r == native_u32(buf@.subrange(offset as int, offset + 4)),
{
    assert(buf.len() == buf@.len());
    let field = &buf[offset..offset + 4];
    assert(field@.subrange(0, 4) == field@);
    read_u32(field)
}

/// Writes the 32-bit number `n` at the byte offset `offset` of `buf` and
/// leaves the other bytes as they were.
pub fn put_u32(buf: &mut [u8], offset: usize, n: u32)
    requires
        offset + 4 <= old(buf)@.len(),
    ensures
        final(buf)@ == old(buf)@.take(offset as int) + native_u32_bytes(n) + old(buf)@.skip(
            offset + 4,
        ),
        final(buf)@.len() == old(buf)@.len(),
{
    let (_before, rest) = buf.split_at_mut(offset);
    write_u32(rest, n);
    proof {
        lemma_u32_round_trip(n, Seq::empty());
        assert(buf@ =~= old(buf)@.take(offset as int) + native_u32_bytes(n) + old(buf)@.skip(
            offset + 4,
        ));
    }
}

/// The 64-bit number at the byte offset `offset` of `buf`.
pub fn get_u64(buf: &[u8], offset: usize) -> (r: u64)
    requires
        offset + 8 <= buf@.len(),
    ensures
        r == native_u64(buf@.subrange(offset as int, offset + 8)),
{
    assert(buf.len() == buf@.len());
    let field = &buf[offset..offset + 8];
    assert(field@.subrange(0, 8) == field@);
    read_u64(field)
}

/// Writes the 64-bit number `n` at the byte offset `offset` of `buf` and
/// leaves the other bytes as they were.
pub fn put_u64(buf: &mut [u8], offset: usize, n: u64)
    requires
        offset + 8 <= old(buf)@.len(),
    ensures
        final(buf)@ == old(buf)@.take(offset as int) + native_u64_bytes(n) + old(buf)@.skip(
            offset + 8,
        ),
        final(buf)@.len() == old(buf)@.len(),
{
    let (_before, rest) = buf.split_at_mut(offset);
    write_u64(rest, n);
    proof {
        lemma_u64_round_trip(n, Seq::empty());
        assert(buf@ =~= old(buf)@.take(offset as int) + native_u64_bytes(n) + old(buf)@.skip(
            offset + 8,
        ));
    }
}

} // verus!
