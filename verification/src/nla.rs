//! The attribute engine: the checked view of one record, the walk over a
//! buffer of records, what every attribute type offers, and the helpers that
//! lay a sequence of attributes out in a buffer.
//!
//! A record is a length (two bytes, header and value, padding not counted),
//! a kind (two bytes), the value, and zero bytes up to the next multiple of
//! four.

use crate::byte_order::{
    lemma_u16_round_trip, native_u16, native_u16_bytes, read_u16, write_u16,
};
use crate::errors::DecodeError;
use vstd::prelude::*;
use vstd::slice::slice_to_vec;

verus! {

/// Bytes of the length and kind fields that start a record.
pub const NLA_HEADER_SIZE: usize = 4;

/// Records start on multiples of this.
pub const NLA_ALIGNTO: usize = 4;

/// The longest value that the length field of a record can declare.
pub const NLA_MAX_VALUE_LEN: usize = 65531;

/// One attribute as the wire has it: its kind and the bytes of its value.
pub struct Record {
    pub kind: u16,
    pub value: Seq<u8>,
}

/// `n` rounded up to the next multiple of four.
pub open spec fn align4(n: int) -> int {
    (n + 3) / 4 * 4
}

/// `n` zero bytes.
pub open spec fn zeros(n: int) -> Seq<u8> {
    Seq::new(n as nat, |i: int| 0u8)
}

/// Whether the length field can hold the record's length.
pub open spec fn fits(r: Record) -> bool {
    r.value.len() <= NLA_MAX_VALUE_LEN
}

/// The bytes of one record: length, kind, value, padding.
pub open spec fn record_bytes(r: Record) -> Seq<u8> {
    native_u16_bytes((r.value.len() + 4) as u16) + native_u16_bytes(r.kind) + r.value + zeros(
        align4(r.value.len() as int) - r.value.len(),
    )
}

/// The bytes of a sequence of records, one after the other.
pub open spec fn records_bytes(rs: Seq<Record>) -> Seq<u8>
    decreases rs.len(),
{
    if rs.len() == 0 {
        Seq::empty()
    } else {
        record_bytes(rs.first()) + records_bytes(rs.drop_first())
    }
}

/// The bytes that a sequence of records takes: for each record the header,
/// the value, and the padding up to the next multiple of four.
pub open spec fn records_len(rs: Seq<Record>) -> int
    decreases rs.len(),
{
    if rs.len() == 0 {
        0
    } else {
        4 + align4(rs.first().value.len() as int) + records_len(rs.drop_first())
    }
}

/// The length that the record at the start of `s` declares.
pub open spec fn declared_length(s: Seq<u8>) -> int {
    native_u16(s.subrange(0, 2)) as int
}

/// Whether `s` starts with a whole record: `Truncated` where the header or
/// the declared length runs past the end of `s`, `InvalidLength` where the
/// declared length is under four.
pub open spec fn check_header(s: Seq<u8>) -> Result<(), DecodeError> {
    if s.len() < 4 {
        Err(DecodeError::Truncated)
    } else if s.len() < declared_length(s) {
        Err(DecodeError::Truncated)
    } else if declared_length(s) < 4 {
        Err(DecodeError::InvalidLength)
    } else {
        Ok(())
    }
}

/// The record at the start of `s`, where `check_header(s)` is `Ok`.
pub open spec fn first_record(s: Seq<u8>) -> Record {
    Record { kind: native_u16(s.subrange(2, 4)), value: s.subrange(4, declared_length(s)) }
}

/// What follows the first record and its padding; empty where the padding
/// would run past the end.
pub open spec fn after_first(s: Seq<u8>) -> Seq<u8> {
    let n = align4(declared_length(s));
    if n >= s.len() {
        Seq::empty()
    } else {
        s.skip(n)
    }
}

/// Decoding of a buffer of records with `f` for each record: the decoded
/// records in their order, or the first failure, be it of a header or of `f`.
pub open spec fn parse_records<T>(
    s: Seq<u8>,
    f: spec_fn(Record) -> Result<T, DecodeError>,
) -> Result<Seq<T>, DecodeError>
    decreases s.len(),
{
    if s.len() == 0 {
        Ok(Seq::empty())
    } else if check_header(s) is Err {
        Err(check_header(s)->Err_0)
    } else {
        match f(first_record(s)) {
            Err(e) => Err(e),
            Ok(a) => match parse_records(after_first(s), f) {
                Err(e) => Err(e),
                Ok(rest) => Ok(seq![a] + rest),
            },
        }
    }
}

/// `len` rounded up to the next multiple of four.
pub fn nla_align(len: usize) -> (r: usize)
    requires
        len + 3 <= usize::MAX,
    ensures
        r == align4(len as int),
        len <= r < len + 4,
{
    (len + (NLA_ALIGNTO - 1)) / NLA_ALIGNTO * NLA_ALIGNTO
}

/// A checked view of one record. It exists only over a buffer that holds
/// the whole of its first record, so each accessor is safe.
pub struct NlaBuffer<'a> {
    buffer: &'a [u8],
}

impl<'a> View for NlaBuffer<'a> {
    type V = Seq<u8>;

    closed spec fn view(&self) -> Seq<u8> {
        self.buffer@
    }
}

impl<'a> NlaBuffer<'a> {
    #[verifier::type_invariant]
    spec fn holds_a_record(self) -> bool {
        check_header(self.buffer@) is Ok
    }

    /// A view of the record at the start of `buffer`, if a whole record is there.
    pub fn new_checked(buffer: &'a [u8]) -> (r: Result<NlaBuffer<'a>, DecodeError>)
        ensures
            match r {
                Ok(b) => check_header(buffer@) is Ok && b@ == buffer@,
                Err(e) => check_header(buffer@) == Err::<(), DecodeError>(e),
            },
    {
        let len: usize = buffer.len();
        if len < NLA_HEADER_SIZE {
            return Err(DecodeError::Truncated);
        }
        let declared: u16 = read_u16(buffer);
        if len < declared as usize {
            Err(DecodeError::Truncated)
        } else if (declared as usize) < NLA_HEADER_SIZE {
            Err(DecodeError::InvalidLength)
        } else {
            Ok(NlaBuffer { buffer })
        }
    }

    /// The buffer that the view was made over.
    pub fn into_inner(self) -> (b: &'a [u8])
        ensures
            b@ == self@,
            check_header(self@) is Ok,
    {
        proof {
            use_type_invariant(&self);
        }
        self.buffer
    }

    /// The length field: header and value, without padding.
    pub fn length(&self) -> (n: u16)
        ensures
            n == declared_length(self@),
            check_header(self@) is Ok,
    {
        proof {
            use_type_invariant(self);
        }
        read_u16(self.buffer)
    }

    /// The kind field.
    pub fn kind(&self) -> (k: u16)
        ensures
            k == first_record(self@).kind,
            check_header(self@) is Ok,
    {
        proof {
            use_type_invariant(self);
        }
        let field = &self.buffer[2..4];
        assert(field@.subrange(0, 2) == field@);
        read_u16(field)
    }

    /// The number of bytes in the value.
    pub fn value_length(&self) -> (n: usize)
        ensures
            n == first_record(self@).value.len(),
            check_header(self@) is Ok,
    {
        let declared: u16 = self.length();
        declared as usize - NLA_HEADER_SIZE
    }

    /// The value: what lies between the header and the declared length.
    pub fn value(&self) -> (v: &'a [u8])
        ensures
            v@ == first_record(self@).value,
            check_header(self@) is Ok,
    {
        let declared: u16 = self.length();
        &self.buffer[NLA_HEADER_SIZE..declared as usize]
    }
}

/// The views of the elements of `s`, in their order.
pub open spec fn views<T: View>(s: Seq<T>) -> Seq<T::V> {
    s.map_values(|t: T| t@)
}

/// What every attribute type offers: its kind, the length of its value, and
/// the writing of that value. The specification of a type says which record
/// a value stands for.
pub trait Nla: View + Sized {
    /// The record that `v` stands for: its kind and the bytes of its value.
    spec fn record_of(v: Self::V) -> Record;

    /// Whether `v` can be written: the length field can hold its length,
    /// and what it holds has the size that its kind fixes.
    spec fn emittable(v: Self::V) -> bool;

    /// The value of an emittable attribute fits the length field.
    proof fn lemma_emittable_fits(v: Self::V)
        requires
            Self::emittable(v),
        ensures
            fits(Self::record_of(v)),
    ;

    /// Whether the attribute can be written.
    fn is_emittable(&self) -> (b: bool)
        ensures
            b == Self::emittable(self@),
    ;

    /// The 16-bit kind of the attribute.
    fn kind(&self) -> (k: u16)
        ensures
            k == Self::record_of(self@).kind,
    ;

    /// The number of bytes in the value, header and padding not counted.
    fn value_len(&self) -> (n: usize)
        requires
            Self::emittable(self@),
        ensures
            n == Self::record_of(self@).value.len(),
    ;

    /// Writes the value into `buffer`, which has exactly its length.
    fn emit_value(&self, buffer: &mut [u8])
        requires
            Self::emittable(self@),
            old(buffer)@.len() == Self::record_of(self@).value.len(),
        ensures
            final(buffer)@ == Self::record_of(self@).value,
    ;
}

/// The records that the attributes `vs` stand for.
pub open spec fn records_of<T: Nla>(vs: Seq<T::V>) -> Seq<Record> {
    vs.map_values(|v: T::V| T::record_of(v))
}

/// Whether each of `vs` can be written.
pub open spec fn all_emittable<T: Nla>(vs: Seq<T::V>) -> bool {
    forall|i: int| 0 <= i < vs.len() ==> T::emittable(#[trigger] vs[i])
}

/// The bytes that the attributes `vs` are written as.
pub open spec fn nlas_bytes<T: Nla>(vs: Seq<T::V>) -> Seq<u8> {
    records_bytes(records_of::<T>(vs))
}

/// A record takes its header, its value and the padding.
pub proof fn lemma_record_len(r: Record)
    ensures
        record_bytes(r).len() == 4 + align4(r.value.len() as int),
        record_bytes(r).len() % 4 == 0,
        r.value.len() <= align4(r.value.len() as int) < r.value.len() + 4,
{
    lemma_u16_round_trip(r.kind, Seq::empty());
    lemma_u16_round_trip((r.value.len() + 4) as u16, Seq::empty());
}

/// The bytes of two sequences of records, one after the other, are the
/// bytes of the joined sequence.
pub proof fn lemma_records_bytes_concat(a: Seq<Record>, b: Seq<Record>)
    ensures
        records_bytes(a + b) == records_bytes(a) + records_bytes(b),
    decreases a.len(),
{
    if a.len() == 0 {
        assert(a + b =~= b);
    } else {
        lemma_records_bytes_concat(a.drop_first(), b);
        assert((a + b).drop_first() =~= a.drop_first() + b);
        assert((a + b).first() == a.first());
    }
}

/// The bytes of a sequence of records are as many as the padded lengths of
/// the records add up to, and so a multiple of four.
pub proof fn lemma_records_bytes_aligned(rs: Seq<Record>)
    ensures
        records_bytes(rs).len() == records_len(rs),
        records_bytes(rs).len() % 4 == 0,
    decreases rs.len(),
{
    if rs.len() > 0 {
        lemma_record_len(rs.first());
        lemma_records_bytes_aligned(rs.drop_first());
    }
}

/// Sets every byte of `buffer` to zero.
pub fn fill_zero(buffer: &mut [u8])
    ensures
        final(buffer)@ == zeros(old(buffer)@.len() as int),
{
    let n: usize = buffer.len();
    let mut i: usize = 0;
    while i < n
        invariant
            i <= n,
            buffer@.len() == n,
            forall|j: int| 0 <= j < i ==> buffer@[j] == 0u8,
        decreases n - i,
    {
        buffer[i] = 0;
        i += 1;
    }
    assert(buffer@ =~= zeros(n as int));
}

/// Copies `src` over `dst`, which has the same length.
pub fn copy_bytes(dst: &mut [u8], src: &[u8])
    requires
        old(dst)@.len() == src@.len(),
    ensures
        final(dst)@ == src@,
{
    let n: usize = src.len();
    let mut i: usize = 0;
    while i < n
        invariant
            i <= n,
            dst@.len() == n,
            src@.len() == n,
            forall|j: int| 0 <= j < i ==> dst@[j] == src@[j],
        decreases n - i,
    {
        dst[i] = src[i];
        i += 1;
    }
    assert(dst@ =~= src@);
}

/// Writes the length field of the record at the start of `buffer`.
pub fn set_length(buffer: &mut [u8], length: u16)
    requires
        old(buffer)@.len() >= NLA_HEADER_SIZE,
    ensures
        final(buffer)@ == native_u16_bytes(length) + old(buffer)@.skip(2),
        final(buffer)@.len() == old(buffer)@.len(),
        declared_length(final(buffer)@) == length,
{
    write_u16(buffer, length);
    proof {
        lemma_u16_round_trip(length, Seq::empty());
        assert(old(buffer)@.subrange(2, old(buffer)@.len() as int) =~= old(buffer)@.skip(2));
        assert(buffer@.subrange(0, 2) =~= native_u16_bytes(length));
    }
}

/// Writes the kind field of the record at the start of `buffer`.
pub fn set_kind(buffer: &mut [u8], kind: u16)
    requires
        old(buffer)@.len() >= NLA_HEADER_SIZE,
    ensures
        final(buffer)@ == old(buffer)@.take(2) + native_u16_bytes(kind) + old(buffer)@.skip(4),
        final(buffer)@.len() == old(buffer)@.len(),
        first_record(final(buffer)@).kind == kind,
        declared_length(final(buffer)@) == declared_length(old(buffer)@),
{
    let (_length_field, rest) = buffer.split_at_mut(2);
    write_u16(rest, kind);
    proof {
        lemma_u16_round_trip(kind, Seq::empty());
        assert(buffer@ =~= old(buffer)@.take(2) + native_u16_bytes(kind) + old(buffer)@.skip(4));
        assert(buffer@.subrange(2, 4) =~= native_u16_bytes(kind));
        assert(buffer@.subrange(0, 2) =~= old(buffer)@.subrange(0, 2));
    }
}

/// The number of bytes that the attribute takes in a buffer: header, value
/// and padding.
pub fn buffer_len<T: Nla>(nla: &T) -> (n: usize)
    requires
        T::emittable(nla@),
    ensures
        n == record_bytes(T::record_of(nla@)).len(),
        n == 4 + align4(T::record_of(nla@).value.len() as int),
{
    proof {
        T::lemma_emittable_fits(nla@);
        lemma_record_len(T::record_of(nla@));
    }
    nla_align(nla.value_len()) + NLA_HEADER_SIZE
}

/// Writes the attribute as one record at the start of `buffer`: the header,
/// the value, then zero bytes up to the next multiple of four. `buffer` has
/// at least the length that `buffer_len` gives; what lies behind the record
/// stays as it was.
pub fn emit<T: Nla>(nla: &T, buffer: &mut [u8])
    requires
        T::emittable(nla@),
        old(buffer)@.len() >= record_bytes(T::record_of(nla@)).len(),
    ensures
        final(buffer)@ == record_bytes(T::record_of(nla@)) + old(buffer)@.skip(
            record_bytes(T::record_of(nla@)).len() as int,
        ),
{
    proof {
        T::lemma_emittable_fits(nla@);
        lemma_record_len(T::record_of(nla@));
    }
    let value_len: usize = nla.value_len();
    let kind: u16 = nla.kind();
    let (record, _behind) = buffer.split_at_mut(nla_align(value_len) + NLA_HEADER_SIZE);
    set_kind(record, kind);
    set_length(record, (value_len + NLA_HEADER_SIZE) as u16);
    let (_header, rest) = record.split_at_mut(NLA_HEADER_SIZE);
    let (value, padding) = rest.split_at_mut(value_len);
    nla.emit_value(value);
    fill_zero(padding);
    proof {
        lemma_u16_round_trip(kind, Seq::empty());
        lemma_u16_round_trip((value_len + 4) as u16, Seq::empty());
        assert(buffer@ =~= record_bytes(T::record_of(nla@)) + old(buffer)@.skip(
            record_bytes(T::record_of(nla@)).len() as int,
        ));
    }
}

/// The bytes of the first `i + 1` attributes are those of the first `i`
/// and the record of the next.
pub proof fn lemma_nlas_bytes_step<T: Nla>(vs: Seq<T::V>, i: int)
    requires
        0 <= i < vs.len(),
    ensures
        nlas_bytes::<T>(vs.take(i + 1)) == nlas_bytes::<T>(vs.take(i)) + record_bytes(
            T::record_of(vs[i]),
        ),
        nlas_bytes::<T>(vs.take(i + 1)).len() <= nlas_bytes::<T>(vs).len(),
{
    let rs = records_of::<T>(vs);
    let one = seq![T::record_of(vs[i])];
    assert(records_of::<T>(vs.take(i + 1)) =~= records_of::<T>(vs.take(i)) + one);
    lemma_records_bytes_concat(records_of::<T>(vs.take(i)), one);
    assert(records_bytes(one) =~= record_bytes(T::record_of(vs[i]))) by {
        reveal_with_fuel(records_bytes, 2);
    }
    assert(rs =~= records_of::<T>(vs.take(i + 1)) + records_of::<T>(vs.skip(i + 1)));
    lemma_records_bytes_concat(records_of::<T>(vs.take(i + 1)), records_of::<T>(vs.skip(i + 1)));
}

/// The number of bytes that the attributes take in a buffer, one record
/// after the other. The sum has to fit in `usize`.
pub fn buffer_len_all<T: Nla>(nlas: &[T]) -> (n: usize)
    requires
        all_emittable::<T>(views(nlas@)),
        nlas_bytes::<T>(views(nlas@)).len() <= usize::MAX,
    ensures
        n == nlas_bytes::<T>(views(nlas@)).len(),
        n == records_len(records_of::<T>(views(nlas@))),
        n % 4 == 0,
{
    let ghost vs = views(nlas@);
    let mut total: usize = 0;
    let mut i: usize = 0;
    while i < nlas.len()
        invariant
            i <= nlas.len(),
            vs == views(nlas@),
            all_emittable::<T>(vs),
            nlas_bytes::<T>(vs).len() <= usize::MAX,
            total == nlas_bytes::<T>(vs.take(i as int)).len(),
        decreases nlas.len() - i,
    {
        proof {
            lemma_nlas_bytes_step::<T>(vs, i as int);
        }
        let one: usize = buffer_len(&nlas[i]);
        total = total + one;
        i += 1;
    }
    proof {
        assert(vs.take(i as int) =~= vs);
        lemma_records_bytes_aligned(records_of::<T>(vs));
    }
    total
}

/// The number of bytes that the attributes take in a buffer, if each of
/// them can be written and the sum is at most `limit`.
pub fn checked_buffer_len_all<T: Nla>(nlas: &[T], limit: usize) -> (r: Option<usize>)
    ensures
        r is Some <==> all_emittable::<T>(views(nlas@)) && nlas_bytes::<T>(views(nlas@)).len()
            <= limit,
        r is Some ==> r->Some_0 == nlas_bytes::<T>(views(nlas@)).len(),
{
    let ghost vs = views(nlas@);
    let mut total: usize = 0;
    let mut i: usize = 0;
    while i < nlas.len()
        invariant
            i <= nlas.len(),
            vs == views(nlas@),
            all_emittable::<T>(vs.take(i as int)),
            total == nlas_bytes::<T>(vs.take(i as int)).len(),
            total <= limit,
        decreases nlas.len() - i,
    {
        if !nlas[i].is_emittable() {
            assert(!T::emittable(vs[i as int]));
            return None;
        }
        proof {
            lemma_nlas_bytes_step::<T>(vs, i as int);
            assert(vs.take(i + 1) =~= vs.take(i as int).push(vs[i as int]));
        }
        let one: usize = buffer_len(&nlas[i]);
        if one > limit - total {
            return None;
        }
        total = total + one;
        i += 1;
    }
    assert(vs.take(i as int) =~= vs);
    Some(total)
}

/// Writes the attributes at the start of `buffer`, one record after the
/// other in their order. `buffer` has at least the length that
/// `buffer_len_all` gives; what lies behind the records stays as it was.
pub fn emit_all<T: Nla>(nlas: &[T], buffer: &mut [u8])
    requires
        all_emittable::<T>(views(nlas@)),
        old(buffer)@.len() >= nlas_bytes::<T>(views(nlas@)).len(),
    ensures
        final(buffer)@ == nlas_bytes::<T>(views(nlas@)) + old(buffer)@.skip(
            nlas_bytes::<T>(views(nlas@)).len() as int,
        ),
{
    let ghost vs = views(nlas@);
    let total: usize = buffer.len();
    let mut start: usize = 0;
    let mut i: usize = 0;
    while i < nlas.len()
        invariant
            i <= nlas.len(),
            vs == views(nlas@),
            all_emittable::<T>(vs),
            buffer@.len() == total,
            old(buffer)@.len() == total,
            total >= nlas_bytes::<T>(vs).len(),
            start == nlas_bytes::<T>(vs.take(i as int)).len(),
            start <= total,
            buffer@.subrange(0, start as int) == nlas_bytes::<T>(vs.take(i as int)),
            buffer@.skip(start as int) == old(buffer)@.skip(start as int),
        decreases nlas.len() - i,
    {
        proof {
            lemma_nlas_bytes_step::<T>(vs, i as int);
        }
        let ghost before = buffer@;
        let (_done, ahead) = buffer.split_at_mut(start);
        emit(&nlas[i], ahead);
        let ghost one = record_bytes(T::record_of(vs[i as int]));
        proof {
            assert(buffer@.subrange(0, start + one.len()) =~= before.subrange(0, start as int)
                + one);
            assert(buffer@.skip(start + one.len()) =~= old(buffer)@.skip(start + one.len())) by {
                assert(before.skip(start as int).skip(one.len() as int) =~= before.skip(
                    start + one.len(),
                ));
                assert(old(buffer)@.skip(start as int).skip(one.len() as int) =~= old(
                    buffer,
                )@.skip(start + one.len()));
            }
        }
        start = start + buffer_len(&nlas[i]);
        i += 1;
    }
    proof {
        assert(vs.take(i as int) =~= vs);
        assert(buffer@ =~= buffer@.subrange(0, start as int) + buffer@.skip(start as int));
    }
}

/// The walk over a buffer of records. Each step yields the view of the
/// next record, or the reason why there is none; after a failure the walk
/// is over.
pub struct NlasIterator<'a> {
    buffer: &'a [u8],
    position: usize,
}

impl<'a> NlasIterator<'a> {
    #[verifier::type_invariant]
    spec fn within_buffer(self) -> bool {
        self.position <= self.buffer@.len()
    }

    /// The bytes that the walk has not passed yet.
    pub closed spec fn remaining(&self) -> Seq<u8> {
        self.buffer@.skip(self.position as int)
    }

    /// A walk over `buffer` from its start.
    pub fn new(buffer: &'a [u8]) -> (it: NlasIterator<'a>)
        ensures
            it.remaining() == buffer@,
    {
        assert(buffer@.skip(0) =~= buffer@);
        NlasIterator { buffer, position: 0 }
    }

    /// The next record. `None` when nothing is left. A view bounded to the
    /// declared length when a whole record is there, and the walk moves on
    /// past its padding, at most to the end. Else the failure, and the walk
    /// moves to the end.
    pub fn next(&mut self) -> (r: Option<Result<NlaBuffer<'a>, DecodeError>>)
        ensures
            match r {
                None => old(self).remaining().len() == 0 && final(self).remaining().len() == 0,
                Some(Ok(b)) => {
                    &&& old(self).remaining().len() > 0
                    &&& check_header(old(self).remaining()) is Ok
                    &&& b@ == old(self).remaining().take(declared_length(old(self).remaining()))
                    &&& first_record(b@) == first_record(old(self).remaining())
                    &&& final(self).remaining() == after_first(old(self).remaining())
                    &&& final(self).remaining().len() < old(self).remaining().len()
                },
                Some(Err(e)) => {
                    &&& old(self).remaining().len() > 0
                    &&& check_header(old(self).remaining()) == Err::<(), DecodeError>(e)
                    &&& final(self).remaining().len() == 0
                },
            },
    {
        proof {
            use_type_invariant(&*self);
        }
        let len: usize = self.buffer.len();
        if self.position >= len {
            return None;
        }
        let rest = &self.buffer[self.position..len];
        assert(rest@ == self.remaining());
        match NlaBuffer::new_checked(rest) {
            Ok(whole) => {
                let declared: usize = whole.length() as usize;
                let bounded = &rest[0..declared];
                proof {
                    assert(bounded@.subrange(0, 2) =~= rest@.subrange(0, 2));
                    assert(bounded@.subrange(2, 4) =~= rest@.subrange(2, 4));
                    assert(bounded@.subrange(4, declared as int) =~= rest@.subrange(
                        4,
                        declared as int,
                    ));
                }
                let ghost before = self.remaining();
                let aligned: usize = nla_align(declared);
                if aligned >= len - self.position {
                    self.position = len;
                    assert(self.remaining() =~= after_first(before));
                } else {
                    self.position = self.position + aligned;
                    assert(self.remaining() =~= after_first(before));
                }
                Some(Ok(NlaBuffer { buffer: bounded }))
            },
            Err(e) => {
                self.position = len;
                Some(Err(e))
            },
        }
    }
}

/// `r` with the value it holds, if any, replaced by its view.
pub open spec fn result_view<T: View>(r: Result<T, DecodeError>) -> Result<T::V, DecodeError> {
    match r {
        Ok(t) => Ok(t@),
        Err(e) => Err(e),
    }
}

/// A type that one record decodes to.
pub trait Parseable: View + Sized {
    /// What the record `r` decodes to.
    spec fn parse_spec(r: Record) -> Result<Self::V, DecodeError>;

    /// Decodes the record that `buf` views.
    fn parse(buf: &NlaBuffer) -> (r: Result<Self, DecodeError>)
        ensures
            result_view(r) == Self::parse_spec(first_record(buf@)),
    ;
}

/// A type that one record decodes to, where the decoding depends on a
/// value from outside the record, such as the address family of the
/// message that holds it.
pub trait ParseableParametrized<P>: View + Sized {
    /// What the record `r` decodes to under `param`.
    spec fn parse_spec_with(r: Record, param: P) -> Result<Self::V, DecodeError>;

    /// Decodes the record that `buf` views under `param`.
    fn parse_with_param(buf: &NlaBuffer, param: P) -> (r: Result<Self, DecodeError>)
        ensures
            result_view(r) == Self::parse_spec_with(first_record(buf@), param),
    ;
}

/// The decoding of one record by `T`.
pub open spec fn parser_of<T: Parseable>() -> spec_fn(Record) -> Result<T::V, DecodeError> {
    |r: Record| T::parse_spec(r)
}

/// The decoding of one record by `T` under `param`.
pub open spec fn parser_with<P, T: ParseableParametrized<P>>(param: P) -> spec_fn(Record) -> Result<
    T::V,
    DecodeError,
> {
    |r: Record| T::parse_spec_with(r, param)
}

/// The result for a whole buffer, from what its first records decoded to
/// and the result for the rest.
pub open spec fn joined<V>(done: Seq<V>, rest: Result<Seq<V>, DecodeError>) -> Result<
    Seq<V>,
    DecodeError,
> {
    match rest {
        Ok(more) => Ok(done + more),
        Err(e) => Err(e),
    }
}

/// Decodes a buffer of records, each by `T`: all of them in their order, or
/// the first failure.
pub fn parse_all<T: Parseable>(buffer: &[u8]) -> (r: Result<Vec<T>, DecodeError>)
    ensures
        match r {
            Ok(nlas) => parse_records(buffer@, parser_of::<T>()) == Ok::<Seq<T::V>, DecodeError>(
                views(nlas@),
            ),
            Err(e) => parse_records(buffer@, parser_of::<T>()) == Err::<Seq<T::V>, DecodeError>(e),
        },
{
    let ghost f = parser_of::<T>();
    let mut nlas: Vec<T> = Vec::new();
    let mut it = NlasIterator::new(buffer);
    assert(views(nlas@) + Seq::<T::V>::empty() =~= views(nlas@));
    assert(views(nlas@) =~= Seq::<T::V>::empty());
    loop
        invariant
            f == parser_of::<T>(),
            joined(views(nlas@), parse_records(it.remaining(), f)) == parse_records(buffer@, f),
        decreases it.remaining().len(),
    {
        let ghost before = it.remaining();
        let ghost done = views(nlas@);
        match it.next() {
            None => {
                assert(done + Seq::<T::V>::empty() =~= done);
                return Ok(nlas);
            },
            Some(Err(e)) => {
                return Err(e);
            },
            Some(Ok(buf)) => {
                match T::parse(&buf) {
                    Err(e) => {
                        return Err(e);
                    },
                    Ok(nla) => {
                        nlas.push(nla);
                        proof {
                            let rest = parse_records(after_first(before), f);
                            assert(views(nlas@) =~= done.push(nla@));
                            if rest is Ok {
                                assert(done + (seq![nla@] + rest->Ok_0) =~= done.push(nla@)
                                    + rest->Ok_0);
                            }
                        }
                    },
                }
            },
        }
    }
}

/// Decodes a buffer of records, each by `T` under `param`: all of them in
/// their order, or the first failure.
pub fn parse_all_with_param<P: Copy, T: ParseableParametrized<P>>(buffer: &[u8], param: P) -> (r:
    Result<Vec<T>, DecodeError>)
    ensures
        match r {
            Ok(nlas) => parse_records(buffer@, parser_with::<P, T>(param)) == Ok::<
                Seq<T::V>,
                DecodeError,
            >(views(nlas@)),
            Err(e) => parse_records(buffer@, parser_with::<P, T>(param)) == Err::<
                Seq<T::V>,
                DecodeError,
            >(e),
        },
{
    let ghost f = parser_with::<P, T>(param);
    let mut nlas: Vec<T> = Vec::new();
    let mut it = NlasIterator::new(buffer);
    assert(views(nlas@) + Seq::<T::V>::empty() =~= views(nlas@));
    assert(views(nlas@) =~= Seq::<T::V>::empty());
    loop
        invariant
            f == parser_with::<P, T>(param),
            joined(views(nlas@), parse_records(it.remaining(), f)) == parse_records(buffer@, f),
        decreases it.remaining().len(),
    {
        let ghost before = it.remaining();
        let ghost done = views(nlas@);
        match it.next() {
            None => {
                assert(done + Seq::<T::V>::empty() =~= done);
                return Ok(nlas);
            },
            Some(Err(e)) => {
                return Err(e);
            },
            Some(Ok(buf)) => {
                match T::parse_with_param(&buf, param) {
                    Err(e) => {
                        return Err(e);
                    },
                    Ok(nla) => {
                        nlas.push(nla);
                        proof {
                            let rest = parse_records(after_first(before), f);
                            assert(views(nlas@) =~= done.push(nla@));
                            if rest is Ok {
                                assert(done + (seq![nla@] + rest->Ok_0) =~= done.push(nla@)
                                    + rest->Ok_0);
                            }
                        }
                    },
                }
            },
        }
    }
}

/// The attribute of a kind that the vocabulary at hand does not know: the
/// kind and the value as they came.
#[derive(Debug, PartialEq, Eq, Clone)]
pub struct DefaultNla {
    kind: u16,
    value: Vec<u8>,
}

impl View for DefaultNla {
    type V = Record;

    closed spec fn view(&self) -> Record {
        Record { kind: self.kind, value: self.value@ }
    }
}

impl DefaultNla {
    /// The attribute of the kind `kind` with the value `value`.
    pub fn new(kind: u16, value: Vec<u8>) -> (nla: DefaultNla)
        ensures
            nla@ == (Record { kind, value: value@ }),
    {
        DefaultNla { kind, value }
    }

    /// The bytes of the value.
    pub fn value(&self) -> (v: &Vec<u8>)
        ensures
            v@ == self@.value,
    {
        &self.value
    }
}

impl Nla for DefaultNla {
    open spec fn record_of(v: Record) -> Record {
        v
    }

    open spec fn emittable(v: Record) -> bool {
        fits(v)
    }

    proof fn lemma_emittable_fits(v: Record) {
    }

    fn is_emittable(&self) -> (b: bool) {
        assert(<DefaultNla as Nla>::emittable(self@) == fits(self@));
        self.value.len() <= NLA_MAX_VALUE_LEN
    }

    fn kind(&self) -> (k: u16) {
        assert(<DefaultNla as Nla>::record_of(self@) == self@);
        self.kind
    }

    fn value_len(&self) -> (n: usize) {
        assert(<DefaultNla as Nla>::record_of(self@) == self@);
        self.value.len()
    }

    fn emit_value(&self, buffer: &mut [u8]) {
        assert(<DefaultNla as Nla>::record_of(self@) == self@);
        copy_bytes(buffer, self.value.as_slice());
    }
}

impl Parseable for DefaultNla {
    open spec fn parse_spec(r: Record) -> Result<Record, DecodeError> {
        Ok(r)
    }

    fn parse(buf: &NlaBuffer) -> (r: Result<DefaultNla, DecodeError>) {
        assert(<DefaultNla as Parseable>::parse_spec(first_record(buf@)) is Ok);
        Ok(DefaultNla { kind: buf.kind(), value: slice_to_vec(buf.value()) })
    }
}

/// A record that is written and followed by anything is found again at the
/// start: its header is accepted, the record read back is the one written,
/// and what follows it is what was put behind it.
pub proof fn lemma_first_of_written(r: Record, tail: Seq<u8>)
    requires
        fits(r),
    ensures
        check_header(record_bytes(r) + tail) is Ok,
        first_record(record_bytes(r) + tail) == r,
        after_first(record_bytes(r) + tail) == tail,
{
    let n = r.value.len() as int;
    let s = record_bytes(r) + tail;
    lemma_record_len(r);
    lemma_u16_round_trip((n + 4) as u16, Seq::empty());
    lemma_u16_round_trip(r.kind, Seq::empty());
    assert(s.subrange(0, 2) =~= native_u16_bytes((n + 4) as u16));
    assert(s.subrange(2, 4) =~= native_u16_bytes(r.kind));
    assert(declared_length(s) == n + 4);
    assert(s.subrange(4, n + 4) =~= r.value);
    assert(align4(n + 4) == 4 + align4(n));
    if align4(n + 4) >= s.len() {
        assert(tail =~= Seq::<u8>::empty());
    } else {
        assert(s.skip(align4(n + 4)) =~= tail);
    }
}

/// A buffer that starts with a written record decodes in the order of the
/// wire and stops at the first failure: where `f` fails on the record, that
/// failure is the result; else the result is what the record decodes to,
/// followed by what the rest of the buffer decodes to, or the failure of
/// the rest.
pub proof fn lemma_parse_in_wire_order<V>(
    r: Record,
    tail: Seq<u8>,
    f: spec_fn(Record) -> Result<V, DecodeError>,
)
    requires
        fits(r),
    ensures
        parse_records(record_bytes(r) + tail, f) == match f(r) {
            Err(e) => Err::<Seq<V>, DecodeError>(e),
            Ok(a) => joined(seq![a], parse_records(tail, f)),
        },
{
    lemma_first_of_written(r, tail);
    lemma_record_len(r);
}

/// Attributes that are written one after the other decode to themselves,
/// where each of them can be written and `f` decodes the record of each to
/// it.
pub proof fn lemma_parse_written<T: Nla>(
    vs: Seq<T::V>,
    f: spec_fn(Record) -> Result<T::V, DecodeError>,
)
    requires
        all_emittable::<T>(vs),
        forall|i: int| 0 <= i < vs.len() ==> f(T::record_of(#[trigger] vs[i])) == Ok::<
            T::V,
            DecodeError,
        >(vs[i]),
    ensures
        parse_records(nlas_bytes::<T>(vs), f) == Ok::<Seq<T::V>, DecodeError>(vs),
    decreases vs.len(),
{
    let rs = records_of::<T>(vs);
    if vs.len() == 0 {
        assert(vs =~= Seq::<T::V>::empty());
    } else {
        let r = T::record_of(vs[0]);
        let rest = vs.drop_first();
        assert(rs.first() == r);
        assert(rs.drop_first() =~= records_of::<T>(rest));
        assert(T::emittable(vs[0]));
        T::lemma_emittable_fits(vs[0]);
        lemma_first_of_written(r, nlas_bytes::<T>(rest));
        lemma_record_len(r);
        assert forall|i: int| 0 <= i < rest.len() implies f(T::record_of(#[trigger] rest[i]))
            == Ok::<T::V, DecodeError>(rest[i]) by {
            assert(rest[i] == vs[i + 1]);
        }
        assert forall|i: int| 0 <= i < rest.len() implies T::emittable(#[trigger] rest[i]) by {
            assert(rest[i] == vs[i + 1]);
        }
        lemma_parse_written::<T>(rest, f);
        assert(seq![vs[0]] + rest =~= vs);
    }
}

/// Every value that a buffer decodes to was decoded by `f` from a record.
pub proof fn lemma_parsed_from_records<V>(
    s: Seq<u8>,
    f: spec_fn(Record) -> Result<V, DecodeError>,
    i: int,
) -> (r: Record)
    requires
        parse_records(s, f) is Ok,
        0 <= i < parse_records(s, f)->Ok_0.len(),
    ensures
        f(r) == Ok::<V, DecodeError>(parse_records(s, f)->Ok_0[i]),
    decreases s.len(),
{
    if i == 0 {
        first_record(s)
    } else {
        lemma_parsed_from_records(after_first(s), f, i - 1)
    }
}

/// A buffer that ends inside a header, or before the end that its first
/// record declares, does not decode: the failure is `Truncated`.
pub proof fn lemma_truncated<V>(s: Seq<u8>, f: spec_fn(Record) -> Result<V, DecodeError>)
    requires
        0 < s.len() < 4 || (s.len() >= 4 && declared_length(s) > s.len()),
    ensures
        check_header(s) == Err::<(), DecodeError>(DecodeError::Truncated),
        parse_records(s, f) == Err::<Seq<V>, DecodeError>(DecodeError::Truncated),
{
}

} // verus!
