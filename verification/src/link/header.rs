//! The fixed header of a link message, and the checked view of a buffer
//! that holds a link message.

use crate::byte_order::{
    lemma_u16_round_trip, lemma_u32_round_trip, native_u16, native_u16_bytes, native_u32,
    native_u32_bytes, read_u16, read_u32, write_u16, write_u32,
};
use crate::errors::DecodeError;
use crate::nla::NlasIterator;
use vstd::prelude::*;

verus! {

/// The bytes of the header of a link message.
pub const LINK_HEADER_LEN: usize = 16;

/// The header of a link message.
#[derive(Debug, PartialEq, Eq, Clone, Copy)]
pub struct LinkHeader {
    /// Byte 0: the address family. It decides how the per-family data of
    /// the message is decoded.
    pub interface_family: u8,
    /// Bytes 2 and 3: the type of the link layer.
    pub link_layer_type: u16,
    /// Bytes 4 to 7: the index of the interface.
    pub index: u32,
    /// Bytes 8 to 11: the flags of the device.
    pub flags: u32,
    /// Bytes 12 to 15: which flags a request changes.
    pub change_mask: u32,
}

impl LinkHeader {
    /// The value with every field zero.
    pub open spec fn zero() -> LinkHeader {
        LinkHeader {
            interface_family: 0,
            link_layer_type: 0,
            index: 0,
            flags: 0,
            change_mask: 0,
        }
    }
}

impl Default for LinkHeader {
    /// Every field zero.
    fn default() -> (d: LinkHeader)
        ensures
            d == LinkHeader::zero(),
    {
        LinkHeader {
            interface_family: 0,
            link_layer_type: 0,
            index: 0,
            flags: 0,
            change_mask: 0,
        }
    }
}

/// The sixteen bytes that the header is written as. Byte 1 is not used and
/// is written as zero.
pub open spec fn header_bytes(h: LinkHeader) -> Seq<u8> {
    seq![h.interface_family, 0u8] + native_u16_bytes(h.link_layer_type) + native_u32_bytes(h.index)
        + native_u32_bytes(h.flags) + native_u32_bytes(h.change_mask)
}

/// The header that the first sixteen bytes of `s` hold.
pub open spec fn header_of(s: Seq<u8>) -> LinkHeader {
    LinkHeader {
        interface_family: s[0],
        link_layer_type: native_u16(s.subrange(2, 4)),
        index: native_u32(s.subrange(4, 8)),
        flags: native_u32(s.subrange(8, 12)),
        change_mask: native_u32(s.subrange(12, 16)),
    }
}

/// The header is read back from the bytes it was written as, whatever
/// follows them.
pub proof fn lemma_header_round_trip(h: LinkHeader, behind: Seq<u8>)
    ensures
        header_bytes(h).len() == LINK_HEADER_LEN,
        header_of(header_bytes(h) + behind) == h,
        (header_bytes(h) + behind).skip(LINK_HEADER_LEN as int) == behind,
{
    let s = header_bytes(h) + behind;
    lemma_u16_round_trip(h.link_layer_type, Seq::empty());
    lemma_u32_round_trip(h.index, Seq::empty());
    lemma_u32_round_trip(h.flags, Seq::empty());
    lemma_u32_round_trip(h.change_mask, Seq::empty());
    assert(s.subrange(2, 4) =~= native_u16_bytes(h.link_layer_type));
    assert(s.subrange(4, 8) =~= native_u32_bytes(h.index));
    assert(s.subrange(8, 12) =~= native_u32_bytes(h.flags));
    assert(s.subrange(12, 16) =~= native_u32_bytes(h.change_mask));
    assert(s.skip(LINK_HEADER_LEN as int) =~= behind);
}

/// A checked view of a link message: it exists only over a buffer that
/// holds the whole header.
pub struct LinkMessageBuffer<'a> {
    buffer: &'a [u8],
}

impl<'a> View for LinkMessageBuffer<'a> {
    type V = Seq<u8>;

    closed spec fn view(&self) -> Seq<u8> {
        self.buffer@
    }
}

impl<'a> LinkMessageBuffer<'a> {
    #[verifier::type_invariant]
    spec fn holds_a_header(self) -> bool {
        self.buffer@.len() >= LINK_HEADER_LEN
    }

    /// A view of `buffer`, if it holds the sixteen bytes of a header.
    pub fn new_checked(buffer: &'a [u8]) -> (r: Result<LinkMessageBuffer<'a>, DecodeError>)
        ensures
            match r {
                Ok(b) => buffer@.len() >= LINK_HEADER_LEN && b@ == buffer@,
                Err(e) => buffer@.len() < LINK_HEADER_LEN && e == DecodeError::Truncated,
            },
    {
        if buffer.len() < LINK_HEADER_LEN {
            Err(DecodeError::Truncated)
        } else {
            Ok(LinkMessageBuffer { buffer })
        }
    }

    /// The address family, byte 0.
    pub fn interface_family(&self) -> (n: u8)
        ensures
            n == header_of(self@).interface_family,
    {
        proof {
            use_type_invariant(self);
        }
        self.buffer[0]
    }

    /// The header as a whole.
    pub fn header(&self) -> (h: LinkHeader)
        ensures
            h == header_of(self@),
            self@.len() >= LINK_HEADER_LEN,
    {
        proof {
            use_type_invariant(self);
        }
        let kind_field = &self.buffer[2..4];
        let index_field = &self.buffer[4..8];
        let flags_field = &self.buffer[8..12];
        let mask_field = &self.buffer[12..16];
        assert(kind_field@.subrange(0, 2) == kind_field@);
        assert(index_field@.subrange(0, 4) == index_field@);
        assert(flags_field@.subrange(0, 4) == flags_field@);
        assert(mask_field@.subrange(0, 4) == mask_field@);
        LinkHeader {
            interface_family: self.buffer[0],
            link_layer_type: read_u16(kind_field),
            index: read_u32(index_field),
            flags: read_u32(flags_field),
            change_mask: read_u32(mask_field),
        }
    }

    /// What follows the header: the attribute records.
    pub fn payload(&self) -> (p: &'a [u8])
        ensures
            p@ == self@.skip(LINK_HEADER_LEN as int),
            self@.len() >= LINK_HEADER_LEN,
    {
        proof {
            use_type_invariant(self);
        }
        let len: usize = self.buffer.len();
        &self.buffer[LINK_HEADER_LEN..len]
    }

    /// A walk over the attribute records of the message.
    pub fn nlas(&self) -> (it: NlasIterator<'a>)
        ensures
            it.remaining() == self@.skip(LINK_HEADER_LEN as int),
    {
        NlasIterator::new(self.payload())
    }
}

impl LinkHeader {
    /// The header of the message that `buf` views.
    pub fn parse(buf: &LinkMessageBuffer) -> (r: Result<LinkHeader, DecodeError>)
        ensures
            r == Ok::<LinkHeader, DecodeError>(header_of(buf@)),
    {
        Ok(buf.header())
    }

    /// The bytes that the header takes in a buffer.
    pub fn buffer_len(&self) -> (n: usize)
        ensures
            n == LINK_HEADER_LEN,
    {
        LINK_HEADER_LEN
    }

    /// Writes the header into the first sixteen bytes of `buffer` and
    /// leaves what lies behind them as it was.
    pub fn emit(&self, buffer: &mut [u8])
        requires
            old(buffer)@.len() >= LINK_HEADER_LEN,
        ensures
            final(buffer)@ == header_bytes(*self) + old(buffer)@.skip(LINK_HEADER_LEN as int),
    {
        let (header, _behind) = buffer.split_at_mut(LINK_HEADER_LEN);
        let (small, rest) = header.split_at_mut(2);
        small[0] = self.interface_family;
        small[1] = 0;
        let (kind_field, rest) = rest.split_at_mut(2);
        write_u16(kind_field, self.link_layer_type);
        let (index_field, rest) = rest.split_at_mut(4);
        write_u32(index_field, self.index);
        let (flags_field, mask_field) = rest.split_at_mut(4);
        write_u32(flags_field, self.flags);
        write_u32(mask_field, self.change_mask);
        proof {
            lemma_header_round_trip(*self, Seq::empty());
            assert(buffer@ =~= header_bytes(*self) + old(buffer)@.skip(LINK_HEADER_LEN as int));
        }
    }
}

} // verus!
