//! A route message: the header, then the attributes in the order in which
//! they stand in the buffer. Attributes of one kind may come more than once;
//! the codec keeps them all.

use crate::errors::DecodeError;
use crate::nla::{
    all_emittable, buffer_len_all, checked_buffer_len_all, emit_all, lemma_parse_written,
    lemma_parsed_from_records, lemma_records_bytes_aligned, nlas_bytes, parse_all_with_param,
    parse_records, parser_with, records_of, result_view, views, Nla as Attribute,
};
use crate::route::header::{
    header_bytes, header_of, lemma_header_round_trip, RouteHeader, RouteMessageBuffer,
    ROUTE_HEADER_LEN,
};
use crate::route::nlas::{lemma_decoded_canonical, lemma_round_trip, DecodePolicy, Nla, NlaView};
use vstd::prelude::*;

verus! {

/// A route message.
#[derive(Debug, PartialEq, Eq, Clone)]
pub struct RouteMessage {
    pub header: RouteHeader,
    pub nlas: Vec<Nla>,
}

impl Default for RouteMessage {
    /// The message with the default header and no attributes.
    fn default() -> (m: RouteMessage)
        ensures
            m.header == RouteHeader::zero(),
            m.nlas@.len() == 0,
    {
        RouteMessage { header: RouteHeader::default(), nlas: Vec::new() }
    }
}

/// What a route message holds, as plain values.
pub struct RouteMessageView {
    pub header: RouteHeader,
    pub nlas: Seq<NlaView>,
}

impl View for RouteMessage {
    type V = RouteMessageView;

    open spec fn view(&self) -> RouteMessageView {
        RouteMessageView { header: self.header, nlas: views(self.nlas@) }
    }
}

impl RouteMessageView {
    /// The bytes of the message: the header, then the attribute records.
    pub open spec fn bytes(self) -> Seq<u8> {
        header_bytes(self.header) + nlas_bytes::<Nla>(self.nlas)
    }

    /// Whether the message can be written: each attribute can, and the
    /// length of the whole fits in `usize`.
    pub open spec fn emittable(self) -> bool {
        all_emittable::<Nla>(self.nlas) && ROUTE_HEADER_LEN + nlas_bytes::<Nla>(self.nlas).len()
            <= usize::MAX
    }

    /// Whether decoding can give the message under the policy `policy`: it
    /// can give each attribute.
    pub open spec fn canonical(self, policy: DecodePolicy) -> bool {
        forall|i: int| 0 <= i < self.nlas.len() ==> (#[trigger] self.nlas[i]).canonical(policy)
    }

    /// Where the first attribute stands that `wanted` holds of, if there is one.
    pub open spec fn first(self, wanted: spec_fn(NlaView) -> bool, i: int) -> bool {
        &&& 0 <= i < self.nlas.len()
        &&& wanted(self.nlas[i])
        &&& forall|j: int| 0 <= j < i ==> !wanted(#[trigger] self.nlas[j])
    }

    /// Whether `wanted` holds of no attribute.
    pub open spec fn none(self, wanted: spec_fn(NlaView) -> bool) -> bool {
        forall|j: int| 0 <= j < self.nlas.len() ==> !wanted(#[trigger] self.nlas[j])
    }
}

/// What a buffer decodes to as a route message under the policy `policy`:
/// `Truncated` where the header does not fit; else the header and the
/// attributes that the rest decodes to, or the first failure among them.
pub open spec fn decoded_message(s: Seq<u8>, policy: DecodePolicy) -> Result<
    RouteMessageView,
    DecodeError,
> {
    if s.len() < ROUTE_HEADER_LEN {
        Err(DecodeError::Truncated)
    } else {
        match parse_records(
            s.skip(ROUTE_HEADER_LEN as int),
            parser_with::<DecodePolicy, Nla>(policy),
        ) {
            Ok(nlas) => Ok(RouteMessageView { header: header_of(s), nlas }),
            Err(e) => Err(e),
        }
    }
}

impl RouteMessage {
    /// Whether the message can be written.
    pub fn is_emittable(&self) -> (b: bool)
        ensures
            b == self@.emittable(),
    {
        checked_buffer_len_all(self.nlas.as_slice(), usize::MAX - ROUTE_HEADER_LEN).is_some()
    }

    /// The bytes that the message takes in a buffer.
    pub fn buffer_len(&self) -> (n: usize)
        requires
            self@.emittable(),
        ensures
            n == self@.bytes().len(),
            n % 4 == 0,
    {
        proof {
            lemma_header_round_trip(self.header, Seq::empty());
        }
        self.header.buffer_len() + buffer_len_all(self.nlas.as_slice())
    }

    /// Writes the message at the start of `buffer`: the header, then the
    /// attributes in their order. What lies behind the message stays as it
    /// was.
    pub fn emit(&self, buffer: &mut [u8])
        requires
            self@.emittable(),
            old(buffer)@.len() >= self@.bytes().len(),
        ensures
            final(buffer)@ == self@.bytes() + old(buffer)@.skip(self@.bytes().len() as int),
    {
        proof {
            lemma_header_round_trip(self.header, Seq::empty());
        }
        self.header.emit(buffer);
        let ghost with_header = buffer@;
        let (_header, behind) = buffer.split_at_mut(ROUTE_HEADER_LEN);
        emit_all(self.nlas.as_slice(), behind);
        proof {
            let n = nlas_bytes::<Nla>(self@.nlas).len() as int;
            assert(with_header.skip(ROUTE_HEADER_LEN as int).skip(n) =~= old(buffer)@.skip(
                ROUTE_HEADER_LEN + n,
            ));
            assert(buffer@ =~= self@.bytes() + old(buffer)@.skip(self@.bytes().len() as int));
        }
    }

    /// Decodes the message that `buf` views under the policy `Raw`: the
    /// header, then every attribute. One attribute that fails fails the
    /// message.
    pub fn parse(buf: &RouteMessageBuffer) -> (r: Result<RouteMessage, DecodeError>)
        ensures
            result_view(r) == decoded_message(buf@, DecodePolicy::Raw),
    {
        RouteMessage::parse_with_param(buf, DecodePolicy::Raw)
    }

    /// Decodes the message that `buf` views under the policy `policy`: the
    /// header, then every attribute. One attribute that fails fails the
    /// message.
    pub fn parse_with_param(buf: &RouteMessageBuffer, policy: DecodePolicy) -> (r: Result<
        RouteMessage,
        DecodeError,
    >)
        ensures
            result_view(r) == decoded_message(buf@, policy),
    {
        let header = buf.header();
        match parse_all_with_param::<DecodePolicy, Nla>(buf.payload(), policy) {
            Ok(nlas) => Ok(RouteMessage { header, nlas }),
            Err(e) => Err(e),
        }
    }

    /// The index of the input interface: the first `Iif` attribute.
    pub fn input_interface(&self) -> (r: Option<u32>)
        ensures
            match r {
                Some(x) => exists|i: int|
                    self@.first(|v: NlaView| v is Iif, i) && self@.nlas[i] == NlaView::Iif(x),
                None => self@.none(|v: NlaView| v is Iif),
            },
    {
        let ghost wanted = |v: NlaView| v is Iif;
        let mut i: usize = 0;
        while i < self.nlas.len()
            invariant
                i <= self.nlas.len(),
                wanted == |v: NlaView| v is Iif,
                forall|j: int| 0 <= j < i ==> !wanted(#[trigger] self@.nlas[j]),
            decreases self.nlas.len() - i,
        {
            if let Nla::Iif(x) = &self.nlas[i] {
                assert(self@.first(wanted, i as int));
                return Some(*x);
            }
            i += 1;
        }
        None
    }

    /// The index of the output interface: the first `Oif` attribute.
    pub fn output_interface(&self) -> (r: Option<u32>)
        ensures
            match r {
                Some(x) => exists|i: int|
                    self@.first(|v: NlaView| v is Oif, i) && self@.nlas[i] == NlaView::Oif(x),
                None => self@.none(|v: NlaView| v is Oif),
            },
    {
        let ghost wanted = |v: NlaView| v is Oif;
        let mut i: usize = 0;
        while i < self.nlas.len()
            invariant
                i <= self.nlas.len(),
                wanted == |v: NlaView| v is Oif,
                forall|j: int| 0 <= j < i ==> !wanted(#[trigger] self@.nlas[j]),
            decreases self.nlas.len() - i,
        {
            if let Nla::Oif(x) = &self.nlas[i] {
                assert(self@.first(wanted, i as int));
                return Some(*x);
            }
            i += 1;
        }
        None
    }

    /// The source prefix: the bytes of the address in the first `Source`
    /// attribute, and the prefix length of the header.
    pub fn source_prefix(&self) -> (r: Option<(&Vec<u8>, u8)>)
        ensures
            match r {
                Some((address, length)) => {
                    &&& exists|i: int|
                        self@.first(|v: NlaView| v is Source, i) && self@.nlas[i]
                            == NlaView::Source(address@)
                    &&& length == self.header.source_prefix_length
                },
                None => self@.none(|v: NlaView| v is Source),
            },
    {
        let ghost wanted = |v: NlaView| v is Source;
        let mut i: usize = 0;
        while i < self.nlas.len()
            invariant
                i <= self.nlas.len(),
                wanted == |v: NlaView| v is Source,
                forall|j: int| 0 <= j < i ==> !wanted(#[trigger] self@.nlas[j]),
            decreases self.nlas.len() - i,
        {
            if let Nla::Source(address) = &self.nlas[i] {
                assert(self@.first(wanted, i as int));
                return Some((address, self.header.source_prefix_length));
            }
            i += 1;
        }
        None
    }

    /// The destination prefix: the bytes of the address in the first
    /// `Destination` attribute, and the prefix length of the header.
    pub fn destination_prefix(&self) -> (r: Option<(&Vec<u8>, u8)>)
        ensures
            match r {
                Some((address, length)) => {
                    &&& exists|i: int|
                        self@.first(|v: NlaView| v is Destination, i) && self@.nlas[i]
                            == NlaView::Destination(address@)
                    &&& length == self.header.destination_prefix_length
                },
                None => self@.none(|v: NlaView| v is Destination),
            },
    {
        let ghost wanted = |v: NlaView| v is Destination;
        let mut i: usize = 0;
        while i < self.nlas.len()
            invariant
                i <= self.nlas.len(),
                wanted == |v: NlaView| v is Destination,
                forall|j: int| 0 <= j < i ==> !wanted(#[trigger] self@.nlas[j]),
            decreases self.nlas.len() - i,
        {
            if let Nla::Destination(address) = &self.nlas[i] {
                assert(self@.first(wanted, i as int));
                return Some((address, self.header.destination_prefix_length));
            }
            i += 1;
        }
        None
    }

    /// The gateway: the bytes of the address in the first `Gateway`
    /// attribute.
    pub fn gateway(&self) -> (r: Option<&Vec<u8>>)
        ensures
            match r {
                Some(address) => exists|i: int|
                    self@.first(|v: NlaView| v is Gateway, i) && self@.nlas[i]
                        == NlaView::Gateway(address@),
                None => self@.none(|v: NlaView| v is Gateway),
            },
    {
        let ghost wanted = |v: NlaView| v is Gateway;
        let mut i: usize = 0;
        while i < self.nlas.len()
            invariant
                i <= self.nlas.len(),
                wanted == |v: NlaView| v is Gateway,
                forall|j: int| 0 <= j < i ==> !wanted(#[trigger] self@.nlas[j]),
            decreases self.nlas.len() - i,
        {
            if let Nla::Gateway(address) = &self.nlas[i] {
                assert(self@.first(wanted, i as int));
                return Some(address);
            }
            i += 1;
        }
        None
    }
}

/// A message is a multiple of four bytes long, as long as its header and
/// its attributes together.
pub proof fn lemma_message_len(m: RouteMessageView)
    ensures
        m.bytes().len() == ROUTE_HEADER_LEN + nlas_bytes::<Nla>(m.nlas).len(),
        m.bytes().len() % 4 == 0,
{
    lemma_header_round_trip(m.header, Seq::empty());
    lemma_records_bytes_aligned(records_of::<Nla>(m.nlas));
}

/// Decoding undoes writing: a message that can be written, and that
/// decoding can give under the policy, decodes from its bytes to itself.
pub proof fn lemma_message_round_trip(m: RouteMessageView, policy: DecodePolicy)
    requires
        m.emittable(),
        m.canonical(policy),
    ensures
        decoded_message(m.bytes(), policy) == Ok::<RouteMessageView, DecodeError>(m),
{
    let f = parser_with::<DecodePolicy, Nla>(policy);
    let body = nlas_bytes::<Nla>(m.nlas);
    lemma_header_round_trip(m.header, body);
    assert forall|i: int| 0 <= i < m.nlas.len() implies f(
        <Nla as Attribute>::record_of(#[trigger] m.nlas[i]),
    ) == Ok::<NlaView, DecodeError>(m.nlas[i]) by {
        lemma_round_trip(m.nlas[i], policy);
    }
    lemma_parse_written::<Nla>(m.nlas, f);
}

/// What a buffer decodes to is a message that decoding can give.
pub proof fn lemma_decoded_message_canonical(s: Seq<u8>, policy: DecodePolicy)
    requires
        decoded_message(s, policy) is Ok,
    ensures
        decoded_message(s, policy)->Ok_0.canonical(policy),
{
    let f = parser_with::<DecodePolicy, Nla>(policy);
    let body = s.skip(ROUTE_HEADER_LEN as int);
    let m = decoded_message(s, policy)->Ok_0;
    assert(parse_records(body, f) == Ok::<Seq<NlaView>, DecodeError>(m.nlas));
    assert forall|i: int| 0 <= i < m.nlas.len() implies (#[trigger] m.nlas[i]).canonical(
        policy,
    ) by {
        let r = lemma_parsed_from_records(body, f, i);
        lemma_decoded_canonical(r, policy);
    }
}

/// Writing and decoding again changes nothing: the bytes that a decoded
/// message is written as decode to the same message, so they are written
/// as the same bytes again.
pub proof fn lemma_emission_is_fixed_point(s: Seq<u8>, policy: DecodePolicy)
    requires
        decoded_message(s, policy) is Ok,
        decoded_message(s, policy)->Ok_0.emittable(),
    ensures
        decoded_message(decoded_message(s, policy)->Ok_0.bytes(), policy) == decoded_message(
            s,
            policy,
        ),
{
    lemma_decoded_message_canonical(s, policy);
    lemma_message_round_trip(decoded_message(s, policy)->Ok_0, policy);
}

} // verus!
