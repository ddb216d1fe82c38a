//! The counters of a multicast route: a fixed layout of three 64-bit
//! numbers.

use crate::byte_order::{get_u64, lemma_u64_round_trip, native_u64, native_u64_bytes, put_u64};
use crate::errors::DecodeError;
use vstd::prelude::*;

verus! {

/// The bytes that the record takes in a buffer.
pub const MFC_STATS_LEN: usize = 24;

/// The fields of the record, each eight bytes, in the order of the wire.
#[derive(Debug, Clone, Copy, Eq, PartialEq)]
pub struct MfcStats {
    pub packets: u64,
    pub bytes: u64,
    pub wrong_if: u64,
}

impl MfcStats {
    /// The value with every field zero.
    pub open spec fn zero() -> MfcStats {
        MfcStats {
            packets: 0,
            bytes: 0,
            wrong_if: 0,
        }
    }
}

impl Default for MfcStats {
    /// Every field zero.
    fn default() -> (d: MfcStats)
        ensures
            d == MfcStats::zero(),
    {
        MfcStats {
            packets: 0,
            bytes: 0,
            wrong_if: 0,
        }
    }
}

/// The 24 bytes that the record is written as.
pub open spec fn wire_bytes(m: MfcStats) -> Seq<u8> {
    native_u64_bytes(m.packets) + native_u64_bytes(m.bytes) + native_u64_bytes(m.wrong_if)
}

/// The record that the first 24 bytes of `s` hold.
pub open spec fn fields_of(s: Seq<u8>) -> MfcStats {
    MfcStats {
        packets: native_u64(s.subrange(0, 8)),
        bytes: native_u64(s.subrange(8, 16)),
        wrong_if: native_u64(s.subrange(16, 24)),
    }
}

/// What a buffer decodes to as a record: its fields where it has the 24
/// bytes of a record, else `Truncated`.
pub open spec fn decoded(s: Seq<u8>) -> Result<MfcStats, DecodeError> {
    if s.len() < MFC_STATS_LEN {
        Err(DecodeError::Truncated)
    } else {
        Ok(fields_of(s))
    }
}

/// A record that is written decodes to itself, whatever follows its bytes.
pub proof fn lemma_round_trip(m: MfcStats, behind: Seq<u8>)
    ensures
        wire_bytes(m).len() == MFC_STATS_LEN,
        decoded(wire_bytes(m) + behind) == Ok::<MfcStats, DecodeError>(m),
{
    let s = wire_bytes(m) + behind;
    lemma_u64_round_trip(m.packets, Seq::empty());
    lemma_u64_round_trip(m.bytes, Seq::empty());
    lemma_u64_round_trip(m.wrong_if, Seq::empty());
    assert(s.subrange(0, 8) =~= native_u64_bytes(m.packets));
    assert(s.subrange(8, 16) =~= native_u64_bytes(m.bytes));
    assert(s.subrange(16, 24) =~= native_u64_bytes(m.wrong_if));
}

/// A checked view of a record: it exists only over a buffer of at least 24
/// bytes.
pub struct MfcStatsBuffer<'a> {
    buffer: &'a [u8],
}

impl<'a> View for MfcStatsBuffer<'a> {
    type V = Seq<u8>;

    closed spec fn view(&self) -> Seq<u8> {
        self.buffer@
    }
}

impl<'a> MfcStatsBuffer<'a> {
    #[verifier::type_invariant]
    spec fn long_enough(self) -> bool {
        self.buffer@.len() >= MFC_STATS_LEN
    }

    /// A view of `buffer`, if it has the 24 bytes of a record.
    pub fn new_checked(buffer: &'a [u8]) -> (r: Result<MfcStatsBuffer<'a>, DecodeError>)
        ensures
            match r {
                Ok(b) => buffer@.len() >= MFC_STATS_LEN && b@ == buffer@,
                Err(e) => buffer@.len() < MFC_STATS_LEN && e == DecodeError::Truncated,
            },
    {
        if buffer.len() < MFC_STATS_LEN {
            Err(DecodeError::Truncated)
        } else {
            Ok(MfcStatsBuffer { buffer })
        }
    }

    /// The number of packets, bytes 0 to 7.
    pub fn packets(&self) -> (n: u64)
        ensures
            n == fields_of(self@).packets,
            self@.len() >= MFC_STATS_LEN,
    {
        proof {
            use_type_invariant(self);
        }
        get_u64(self.buffer, 0)
    }

    /// The number of bytes, bytes 8 to 15.
    pub fn bytes(&self) -> (n: u64)
        ensures
            n == fields_of(self@).bytes,
            self@.len() >= MFC_STATS_LEN,
    {
        proof {
            use_type_invariant(self);
        }
        get_u64(self.buffer, 8)
    }

    /// The number of packets that came in on the wrong interface, bytes 16
    /// to 23.
    pub fn wrong_if(&self) -> (n: u64)
        ensures
            n == fields_of(self@).wrong_if,
            self@.len() >= MFC_STATS_LEN,
    {
        proof {
            use_type_invariant(self);
        }
        get_u64(self.buffer, 16)
    }
}

impl MfcStats {
    /// The fields of the record that `buf` views.
    pub fn parse(buf: &MfcStatsBuffer) -> (r: Result<MfcStats, DecodeError>)
        ensures
            r == decoded(buf@),
    {
        Ok(MfcStats { packets: buf.packets(), bytes: buf.bytes(), wrong_if: buf.wrong_if() })
    }

    /// The bytes that the record takes in a buffer.
    pub fn buffer_len(&self) -> (n: usize)
        ensures
            n == MFC_STATS_LEN,
    {
        MFC_STATS_LEN
    }

    /// Writes the record into the first 24 bytes of `buffer` and leaves what
    /// lies behind them as it was.
    pub fn emit(&self, buffer: &mut [u8])
        requires
            old(buffer)@.len() >= MFC_STATS_LEN,
        ensures
            final(buffer)@ == wire_bytes(*self) + old(buffer)@.skip(MFC_STATS_LEN as int),
    {
        put_u64(buffer, 0, self.packets);
        put_u64(buffer, 8, self.bytes);
        put_u64(buffer, 16, self.wrong_if);
        proof {
            lemma_round_trip(*self, Seq::empty());
            assert(buffer@ =~= wire_bytes(*self) + old(buffer)@.skip(MFC_STATS_LEN as int));
        }
    }
}

} // verus!
