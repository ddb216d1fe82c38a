//! What the kernel knows of a cached route: a fixed layout of eight 32-bit
//! numbers.

use crate::byte_order::{get_u32, lemma_u32_round_trip, native_u32, native_u32_bytes, put_u32};
use crate::errors::DecodeError;
use vstd::prelude::*;

verus! {

/// The bytes that the record takes in a buffer.
pub const CACHE_INFO_LEN: usize = 32;

/// The fields of the record, each four bytes, in the order of the wire.
#[derive(Debug, Clone, Copy, Eq, PartialEq)]
pub struct CacheInfo {
    pub clntref: u32,
    pub last_use: u32,
    pub expires: u32,
    pub error: u32,
    pub used: u32,
    pub id: u32,
    pub ts: u32,
    pub ts_age: u32,
}

impl CacheInfo {
    /// The value with every field zero.
    pub open spec fn zero() -> CacheInfo {
        CacheInfo {
            clntref: 0,
            last_use: 0,
            expires: 0,
            error: 0,
            used: 0,
            id: 0,
            ts: 0,
            ts_age: 0,
        }
    }
}

impl Default for CacheInfo {
    /// Every field zero.
    fn default() -> (d: CacheInfo)
        ensures
            d == CacheInfo::zero(),
    {
        CacheInfo {
            clntref: 0,
            last_use: 0,
            expires: 0,
            error: 0,
            used: 0,
            id: 0,
            ts: 0,
            ts_age: 0,
        }
    }
}

/// The 32 bytes that the record is written as.
pub open spec fn wire_bytes(c: CacheInfo) -> Seq<u8> {
    native_u32_bytes(c.clntref) + native_u32_bytes(c.last_use) + native_u32_bytes(c.expires)
        + native_u32_bytes(c.error) + native_u32_bytes(c.used) + native_u32_bytes(c.id)
        + native_u32_bytes(c.ts) + native_u32_bytes(c.ts_age)
}

/// The record that the first 32 bytes of `s` hold.
pub open spec fn fields_of(s: Seq<u8>) -> CacheInfo {
    CacheInfo {
        clntref: native_u32(s.subrange(0, 4)),
        last_use: native_u32(s.subrange(4, 8)),
        expires: native_u32(s.subrange(8, 12)),
        error: native_u32(s.subrange(12, 16)),
        used: native_u32(s.subrange(16, 20)),
        id: native_u32(s.subrange(20, 24)),
        ts: native_u32(s.subrange(24, 28)),
        ts_age: native_u32(s.subrange(28, 32)),
    }
}

/// What a buffer decodes to as a record: its fields where it has the 32
/// bytes of a record, else `Truncated`.
pub open spec fn decoded(s: Seq<u8>) -> Result<CacheInfo, DecodeError> {
    if s.len() < CACHE_INFO_LEN {
        Err(DecodeError::Truncated)
    } else {
        Ok(fields_of(s))
    }
}

/// A record that is written decodes to itself, whatever follows its bytes.
pub proof fn lemma_round_trip(c: CacheInfo, behind: Seq<u8>)
    ensures
        wire_bytes(c).len() == CACHE_INFO_LEN,
        decoded(wire_bytes(c) + behind) == Ok::<CacheInfo, DecodeError>(c),
{
    let s = wire_bytes(c) + behind;
    lemma_u32_round_trip(c.clntref, Seq::empty());
    lemma_u32_round_trip(c.last_use, Seq::empty());
    lemma_u32_round_trip(c.expires, Seq::empty());
    lemma_u32_round_trip(c.error, Seq::empty());
    lemma_u32_round_trip(c.used, Seq::empty());
    lemma_u32_round_trip(c.id, Seq::empty());
    lemma_u32_round_trip(c.ts, Seq::empty());
    lemma_u32_round_trip(c.ts_age, Seq::empty());
    assert(s.subrange(0, 4) =~= native_u32_bytes(c.clntref));
    assert(s.subrange(4, 8) =~= native_u32_bytes(c.last_use));
    assert(s.subrange(8, 12) =~= native_u32_bytes(c.expires));
    assert(s.subrange(12, 16) =~= native_u32_bytes(c.error));
    assert(s.subrange(16, 20) =~= native_u32_bytes(c.used));
    assert(s.subrange(20, 24) =~= native_u32_bytes(c.id));
    assert(s.subrange(24, 28) =~= native_u32_bytes(c.ts));
    assert(s.subrange(28, 32) =~= native_u32_bytes(c.ts_age));
}

/// A checked view of a record: it exists only over a buffer of at least 32
/// bytes.
pub struct CacheInfoBuffer<'a> {
    buffer: &'a [u8],
}

impl<'a> View for CacheInfoBuffer<'a> {
    type V = Seq<u8>;

    closed spec fn view(&self) -> Seq<u8> {
        self.buffer@
    }
}

impl<'a> CacheInfoBuffer<'a> {
    #[verifier::type_invariant]
    spec fn long_enough(self) -> bool {
        self.buffer@.len() >= CACHE_INFO_LEN
    }

    /// A view of `buffer`, if it has the 32 bytes of a record.
    pub fn new_checked(buffer: &'a [u8]) -> (r: Result<CacheInfoBuffer<'a>, DecodeError>)
        ensures
            match r {
                Ok(b) => buffer@.len() >= CACHE_INFO_LEN && b@ == buffer@,
                Err(e) => buffer@.len() < CACHE_INFO_LEN && e == DecodeError::Truncated,
            },
    {
        if buffer.len() < CACHE_INFO_LEN {
            Err(DecodeError::Truncated)
        } else {
            Ok(CacheInfoBuffer { buffer })
        }
    }

    /// The field at the byte offset `4 * index`, for the eight fields 0 to 7.
    pub fn field(&self, index: usize) -> (n: u32)
        requires
            index < 8,
        ensures
            n == native_u32(self@.subrange(4 * index, 4 * index + 4)),
            self@.len() >= CACHE_INFO_LEN,
    {
        proof {
            use_type_invariant(self);
        }
        get_u32(self.buffer, 4 * index)
    }
}

impl CacheInfo {
    /// The fields of the record that `buf` views.
    pub fn parse(buf: &CacheInfoBuffer) -> (r: Result<CacheInfo, DecodeError>)
        ensures
            r == decoded(buf@),
    {
        Ok(
            CacheInfo {
                clntref: buf.field(0),
                last_use: buf.field(1),
                expires: buf.field(2),
                error: buf.field(3),
                used: buf.field(4),
                id: buf.field(5),
                ts: buf.field(6),
                ts_age: buf.field(7),
            },
        )
    }

    /// The bytes that the record takes in a buffer.
    pub fn buffer_len(&self) -> (n: usize)
        ensures
            n == CACHE_INFO_LEN,
    {
        CACHE_INFO_LEN
    }

    /// Writes the record into the first 32 bytes of `buffer` and leaves what
    /// lies behind them as it was.
    pub fn emit(&self, buffer: &mut [u8])
        requires
            old(buffer)@.len() >= CACHE_INFO_LEN,
        ensures
            final(buffer)@ == wire_bytes(*self) + old(buffer)@.skip(CACHE_INFO_LEN as int),
    {
        proof {
            lemma_round_trip(*self, Seq::empty());
            lemma_u32_round_trip(self.clntref, Seq::empty());
            lemma_u32_round_trip(self.last_use, Seq::empty());
            lemma_u32_round_trip(self.expires, Seq::empty());
            lemma_u32_round_trip(self.error, Seq::empty());
            lemma_u32_round_trip(self.used, Seq::empty());
            lemma_u32_round_trip(self.id, Seq::empty());
            lemma_u32_round_trip(self.ts, Seq::empty());
            lemma_u32_round_trip(self.ts_age, Seq::empty());
        }
        let ghost before = old(buffer)@;
        put_u32(buffer, 0, self.clntref);
        let ghost done = native_u32_bytes(self.clntref);
        assert(buffer@ =~= done + before.skip(4));
        put_u32(buffer, 4, self.last_use);
        let ghost done = done + native_u32_bytes(self.last_use);
        assert(buffer@ =~= done + before.skip(8));
        put_u32(buffer, 8, self.expires);
        let ghost done = done + native_u32_bytes(self.expires);
        assert(buffer@ =~= done + before.skip(12));
        put_u32(buffer, 12, self.error);
        let ghost done = done + native_u32_bytes(self.error);
        assert(buffer@ =~= done + before.skip(16));
        put_u32(buffer, 16, self.used);
        let ghost done = done + native_u32_bytes(self.used);
        assert(buffer@ =~= done + before.skip(20));
        put_u32(buffer, 20, self.id);
        let ghost done = done + native_u32_bytes(self.id);
        assert(buffer@ =~= done + before.skip(24));
        put_u32(buffer, 24, self.ts);
        let ghost done = done + native_u32_bytes(self.ts);
        assert(buffer@ =~= done + before.skip(28));
        put_u32(buffer, 28, self.ts_age);
        let ghost done = done + native_u32_bytes(self.ts_age);
        assert(buffer@ =~= done + before.skip(32));
    }
}

} // verus!
