//! The next-hop record of a multipath route: a fixed layout of 64 bytes, of
//! which the first eight hold the fields.

use crate::byte_order::{
    lemma_u16_round_trip, lemma_u32_round_trip, native_u16, native_u16_bytes, native_u32,
    native_u32_bytes, read_u16, read_u32, write_u16, write_u32,
};
use crate::errors::DecodeError;
use crate::nla::{fill_zero, zeros};
use vstd::prelude::*;

verus! {

/// The bytes that a next-hop record takes in a buffer.
pub const NEXT_HOPS_LEN: usize = 64;

/// The bytes at the start of the record that hold the fields.
pub const NEXT_HOPS_FIELDS_LEN: usize = 8;

/// The fields of a next-hop record.
#[derive(Debug, Clone, Copy, Eq, PartialEq)]
pub struct NextHops {
    /// Bytes 0 and 1.
    pub len: u16,
    /// Byte 2.
    pub flags: u8,
    /// Byte 3.
    pub hops: u8,
    /// Bytes 4 to 7.
    pub interface_id: u32,
}

/// The eight bytes that the fields are written as.
pub open spec fn fields_bytes(h: NextHops) -> Seq<u8> {
    native_u16_bytes(h.len) + seq![h.flags, h.hops] + native_u32_bytes(h.interface_id)
}

/// The 64 bytes that the record is written as where nothing is to be kept
/// behind the fields: the fields, then zero bytes.
pub open spec fn wire_bytes(h: NextHops) -> Seq<u8> {
    fields_bytes(h) + zeros(NEXT_HOPS_LEN - NEXT_HOPS_FIELDS_LEN)
}

/// The fields that the first eight bytes of `s` hold.
pub open spec fn fields_of(s: Seq<u8>) -> NextHops {
    NextHops {
        len: native_u16(s.subrange(0, 2)),
        flags: s[2],
        hops: s[3],
        interface_id: native_u32(s.subrange(4, 8)),
    }
}

/// What a buffer decodes to as a next-hop record: its fields where it has
/// the 64 bytes of a record, else `Truncated`.
pub open spec fn decoded(s: Seq<u8>) -> Result<NextHops, DecodeError> {
    if s.len() < NEXT_HOPS_LEN {
        Err(DecodeError::Truncated)
    } else {
        Ok(fields_of(s))
    }
}

/// The fields are read back from the bytes they were written as, whatever
/// follows those bytes.
pub proof fn lemma_fields_round_trip(h: NextHops, behind: Seq<u8>)
    ensures
        fields_bytes(h).len() == NEXT_HOPS_FIELDS_LEN,
        fields_of(fields_bytes(h) + behind) == h,
{
    let s = fields_bytes(h) + behind;
    lemma_u16_round_trip(h.len, Seq::empty());
    lemma_u32_round_trip(h.interface_id, Seq::empty());
    assert(s.subrange(0, 2) =~= native_u16_bytes(h.len));
    assert(s.subrange(4, 8) =~= native_u32_bytes(h.interface_id));
}

/// A checked view of a next-hop record: it exists only over a buffer of at
/// least 64 bytes.
pub struct NextHopsBuffer<'a> {
    buffer: &'a [u8],
}

impl<'a> View for NextHopsBuffer<'a> {
    type V = Seq<u8>;

    closed spec fn view(&self) -> Seq<u8> {
        self.buffer@
    }
}

impl<'a> NextHopsBuffer<'a> {
    #[verifier::type_invariant]
    spec fn long_enough(self) -> bool {
        self.buffer@.len() >= NEXT_HOPS_LEN
    }

    /// A view of `buffer`, if it has the 64 bytes of a record.
    pub fn new_checked(buffer: &'a [u8]) -> (r: Result<NextHopsBuffer<'a>, DecodeError>)
        ensures
            match r {
                Ok(b) => buffer@.len() >= NEXT_HOPS_LEN && b@ == buffer@,
                Err(e) => buffer@.len() < NEXT_HOPS_LEN && e == DecodeError::Truncated,
            },
    {
        if buffer.len() < NEXT_HOPS_LEN {
            Err(DecodeError::Truncated)
        } else {
            Ok(NextHopsBuffer { buffer })
        }
    }

    /// The field at bytes 0 and 1.
    pub fn len(&self) -> (n: u16)
        ensures
            n == fields_of(self@).len,
            self@.len() >= NEXT_HOPS_LEN,
    {
        proof {
            use_type_invariant(self);
        }
        read_u16(self.buffer)
    }

    /// The field at byte 2.
    pub fn flags(&self) -> (n: u8)
        ensures
            n == fields_of(self@).flags,
            self@.len() >= NEXT_HOPS_LEN,
    {
        proof {
            use_type_invariant(self);
        }
        self.buffer[2]
    }

    /// The field at byte 3.
    pub fn hops(&self) -> (n: u8)
        ensures
            n == fields_of(self@).hops,
            self@.len() >= NEXT_HOPS_LEN,
    {
        proof {
            use_type_invariant(self);
        }
        self.buffer[3]
    }

    /// The field at bytes 4 to 7.
    pub fn interface_id(&self) -> (n: u32)
        ensures
            n == fields_of(self@).interface_id,
            self@.len() >= NEXT_HOPS_LEN,
    {
        proof {
            use_type_invariant(self);
        }
        let field = &self.buffer[4..8];
        assert(field@.subrange(0, 4) == field@);
        read_u32(field)
    }
}

impl NextHops {
    /// The fields of the record that `buf` views.
    pub fn parse(buf: &NextHopsBuffer) -> (r: Result<NextHops, DecodeError>)
        ensures
            r == decoded(buf@),
    {
        Ok(
            NextHops {
                len: buf.len(),
                flags: buf.flags(),
                hops: buf.hops(),
                interface_id: buf.interface_id(),
            },
        )
    }

    /// The bytes that the record takes in a buffer.
    pub fn buffer_len(&self) -> (n: usize)
        ensures
            n == NEXT_HOPS_LEN,
    {
        NEXT_HOPS_LEN
    }

    /// Writes the fields into the first eight bytes of `buffer` and leaves
    /// what lies behind them as it was.
    pub fn emit(&self, buffer: &mut [u8])
        requires
            old(buffer)@.len() >= NEXT_HOPS_FIELDS_LEN,
        ensures
            final(buffer)@ == fields_bytes(*self) + old(buffer)@.skip(NEXT_HOPS_FIELDS_LEN as int),
    {
        let (fields, _behind) = buffer.split_at_mut(NEXT_HOPS_FIELDS_LEN);
        let (len_field, rest) = fields.split_at_mut(2);
        write_u16(len_field, self.len);
        let (small, id_field) = rest.split_at_mut(2);
        small[0] = self.flags;
        small[1] = self.hops;
        write_u32(id_field, self.interface_id);
        proof {
            lemma_fields_round_trip(*self, Seq::empty());
            assert(buffer@ =~= fields_bytes(*self) + old(buffer)@.skip(
                NEXT_HOPS_FIELDS_LEN as int,
            ));
        }
    }

    /// Writes the record over the 64 bytes of `buffer`: the fields, then
    /// zero bytes.
    pub fn emit_padded(&self, buffer: &mut [u8])
        requires
            old(buffer)@.len() == NEXT_HOPS_LEN,
        ensures
            final(buffer)@ == wire_bytes(*self),
    {
        let (fields, behind) = buffer.split_at_mut(NEXT_HOPS_FIELDS_LEN);
        self.emit(fields);
        fill_zero(behind);
        assert(buffer@ =~= wire_bytes(*self));
    }
}

/// A record that is written into a buffer of 64 bytes decodes to itself.
pub proof fn lemma_round_trip(h: NextHops, behind: Seq<u8>)
    requires
        behind.len() + NEXT_HOPS_FIELDS_LEN >= NEXT_HOPS_LEN,
    ensures
        decoded(fields_bytes(h) + behind) == Ok::<NextHops, DecodeError>(h),
{
    lemma_fields_round_trip(h, behind);
}

/// A record that is written with zero bytes behind its fields decodes to
/// itself.
pub proof fn lemma_padded_round_trip(h: NextHops)
    ensures
        wire_bytes(h).len() == NEXT_HOPS_LEN,
        decoded(wire_bytes(h)) == Ok::<NextHops, DecodeError>(h),
{
    lemma_fields_round_trip(h, zeros(NEXT_HOPS_LEN - NEXT_HOPS_FIELDS_LEN));
}

} // verus!
