//! The fixed header of a route message, and the checked view of a buffer
//! that holds a route message.

use crate::byte_order::{lemma_u32_round_trip, native_u32, native_u32_bytes, read_u32, write_u32};
use crate::errors::DecodeError;
use crate::nla::NlasIterator;
use vstd::prelude::*;

verus! {

/// The bytes of the header of a route message.
pub const ROUTE_HEADER_LEN: usize = 12;

/// The header of a route message.
#[derive(Debug, PartialEq, Eq, Clone, Copy)]
pub struct RouteHeader {
    /// Byte 0: the address family of the route.
    pub address_family: u8,
    /// Byte 1: the length in bits of the destination prefix.
    pub destination_prefix_length: u8,
    /// Byte 2: the length in bits of the source prefix.
    pub source_prefix_length: u8,
    /// Byte 3.
    pub tos: u8,
    /// Byte 4: the routing table.
    pub table: u8,
    /// Byte 5: who installed the route.
    pub protocol: u8,
    /// Byte 6.
    pub scope: u8,
    /// Byte 7: the type of the route.
    pub kind: u8,
    /// Bytes 8 to 11.
    pub flags: u32,
}

impl RouteHeader {
    /// The value with every field zero.
    pub open spec fn zero() -> RouteHeader {
        RouteHeader {
            address_family: 0,
            destination_prefix_length: 0,
            source_prefix_length: 0,
            tos: 0,
            table: 0,
            protocol: 0,
            scope: 0,
            kind: 0,
            flags: 0,
        }
    }
}

impl Default for RouteHeader {
    /// Every field zero.
    fn default() -> (d: RouteHeader)
        ensures
            d == RouteHeader::zero(),
    {
        RouteHeader {
            address_family: 0,
            destination_prefix_length: 0,
            source_prefix_length: 0,
            tos: 0,
            table: 0,
            protocol: 0,
            scope: 0,
            kind: 0,
            flags: 0,
        }
    }
}

/// The twelve bytes that the header is written as.
pub open spec fn header_bytes(h: RouteHeader) -> Seq<u8> {
    seq![
        h.address_family,
        h.destination_prefix_length,
        h.source_prefix_length,
        h.tos,
        h.table,
        h.protocol,
        h.scope,
        h.kind,
    ] + native_u32_bytes(h.flags)
}

/// The header that the first twelve bytes of `s` hold.
pub open spec fn header_of(s: Seq<u8>) -> RouteHeader {
    RouteHeader {
        address_family: s[0],
        destination_prefix_length: s[1],
        source_prefix_length: s[2],
        tos: s[3],
        table: s[4],
        protocol: s[5],
        scope: s[6],
        kind: s[7],
        flags: native_u32(s.subrange(8, 12)),
    }
}

/// The header is read back from the bytes it was written as, whatever
/// follows them.
pub proof fn lemma_header_round_trip(h: RouteHeader, behind: Seq<u8>)
    ensures
        header_bytes(h).len() == ROUTE_HEADER_LEN,
        header_of(header_bytes(h) + behind) == h,
        (header_bytes(h) + behind).skip(ROUTE_HEADER_LEN as int) == behind,
{
    let s = header_bytes(h) + behind;
    lemma_u32_round_trip(h.flags, Seq::empty());
    assert(s.subrange(8, 12) =~= native_u32_bytes(h.flags));
    assert(s.skip(ROUTE_HEADER_LEN as int) =~= behind);
}

/// A checked view of a route message: it exists only over a buffer that
/// holds the whole header.
pub struct RouteMessageBuffer<'a> {
    buffer: &'a [u8],
}

impl<'a> View for RouteMessageBuffer<'a> {
    type V = Seq<u8>;

    closed spec fn view(&self) -> Seq<u8> {
        self.buffer@
    }
}

impl<'a> RouteMessageBuffer<'a> {
    #[verifier::type_invariant]
    spec fn holds_a_header(self) -> bool {
        self.buffer@.len() >= ROUTE_HEADER_LEN
    }

    /// A view of `buffer`, if it holds the twelve bytes of a header.
    pub fn new_checked(buffer: &'a [u8]) -> (r: Result<RouteMessageBuffer<'a>, DecodeError>)
        ensures
            match r {
                Ok(b) => buffer@.len() >= ROUTE_HEADER_LEN && b@ == buffer@,
                Err(e) => buffer@.len() < ROUTE_HEADER_LEN && e == DecodeError::Truncated,
            },
    {
        if buffer.len() < ROUTE_HEADER_LEN {
            Err(DecodeError::Truncated)
        } else {
            Ok(RouteMessageBuffer { buffer })
        }
    }

    /// The address family, byte 0.
    pub fn address_family(&self) -> (n: u8)
        ensures
            n == header_of(self@).address_family,
    {
        proof {
            use_type_invariant(self);
        }
        self.buffer[0]
    }

    /// The header as a whole.
    pub fn header(&self) -> (h: RouteHeader)
        ensures
            h == header_of(self@),
            self@.len() >= ROUTE_HEADER_LEN,
    {
        proof {
            use_type_invariant(self);
        }
        let field = &self.buffer[8..12];
        assert(field@.subrange(0, 4) == field@);
        RouteHeader {
            address_family: self.buffer[0],
            destination_prefix_length: self.buffer[1],
            source_prefix_length: self.buffer[2],
            tos: self.buffer[3],
            table: self.buffer[4],
            protocol: self.buffer[5],
            scope: self.buffer[6],
            kind: self.buffer[7],
            flags: read_u32(field),
        }
    }

    /// What follows the header: the attribute records.
    pub fn payload(&self) -> (p: &'a [u8])
        ensures
            p@ == self@.skip(ROUTE_HEADER_LEN as int),
            self@.len() >= ROUTE_HEADER_LEN,
    {
        proof {
            use_type_invariant(self);
        }
        let len: usize = self.buffer.len();
        &self.buffer[ROUTE_HEADER_LEN..len]
    }

    /// A walk over the attribute records of the message.
    pub fn nlas(&self) -> (it: NlasIterator<'a>)
        ensures
            it.remaining() == self@.skip(ROUTE_HEADER_LEN as int),
    {
        NlasIterator::new(self.payload())
    }
}

impl RouteHeader {
    /// The header of the message that `buf` views.
    pub fn parse(buf: &RouteMessageBuffer) -> (r: Result<RouteHeader, DecodeError>)
        ensures
            r == Ok::<RouteHeader, DecodeError>(header_of(buf@)),
    {
        Ok(buf.header())
    }

    /// The bytes that the header takes in a buffer.
    pub fn buffer_len(&self) -> (n: usize)
        ensures
            n == ROUTE_HEADER_LEN,
    {
        ROUTE_HEADER_LEN
    }

    /// Writes the header into the first twelve bytes of `buffer` and leaves
    /// what lies behind them as it was.
    pub fn emit(&self, buffer: &mut [u8])
        requires
            old(buffer)@.len() >= ROUTE_HEADER_LEN,
        ensures
            final(buffer)@ == header_bytes(*self) + old(buffer)@.skip(ROUTE_HEADER_LEN as int),
    {
        let (header, _behind) = buffer.split_at_mut(ROUTE_HEADER_LEN);
        let (small, flags_field) = header.split_at_mut(8);
        small[0] = self.address_family;
        small[1] = self.destination_prefix_length;
        small[2] = self.source_prefix_length;
        small[3] = self.tos;
        small[4] = self.table;
        small[5] = self.protocol;
        small[6] = self.scope;
        small[7] = self.kind;
        write_u32(flags_field, self.flags);
        proof {
            lemma_u32_round_trip(self.flags, Seq::empty());
            assert(buffer@ =~= header_bytes(*self) + old(buffer)@.skip(ROUTE_HEADER_LEN as int));
        }
    }
}

} // verus!
