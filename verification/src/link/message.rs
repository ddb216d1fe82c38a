//! A link message: the header, then the attributes in the order in which
//! they stand in the buffer. The address family of the header decides how
//! the per-family data among the attributes is decoded.

use crate::errors::DecodeError;
use crate::link::header::{
    header_bytes, header_of, lemma_header_round_trip, LinkHeader, LinkMessageBuffer,
    LINK_HEADER_LEN,
};
use crate::link::nlas::{lemma_decoded_canonical, lemma_round_trip, Nla, NlaView};
use crate::nla::{
    all_emittable, buffer_len_all, checked_buffer_len_all, emit_all, lemma_parse_written,
    lemma_parsed_from_records, lemma_records_bytes_aligned, nlas_bytes, parse_all_with_param,
    parse_records, parser_with, records_of, result_view, views, Nla as Attribute,
};
use vstd::prelude::*;

verus! {

/// A link message.
#[derive(Debug, PartialEq, Eq, Clone)]
pub struct LinkMessage {
    pub header: LinkHeader,
    pub nlas: Vec<Nla>,
}

impl Default for LinkMessage {
    /// The message with the default header and no attributes.
    fn default() -> (m: LinkMessage)
        ensures
            m.header == LinkHeader::zero(),
            m.nlas@.len() == 0,
    {
        LinkMessage { header: LinkHeader::default(), nlas: Vec::new() }
    }
}

/// What a link message holds, as plain values.
pub struct LinkMessageView {
    pub header: LinkHeader,
    pub nlas: Seq<NlaView>,
}

impl View for LinkMessage {
    type V = LinkMessageView;

    open spec fn view(&self) -> LinkMessageView {
        LinkMessageView { header: self.header, nlas: views(self.nlas@) }
    }
}

impl LinkMessageView {
    /// The address family under which the attributes are decoded.
    pub open spec fn family(self) -> u16 {
        self.header.interface_family as u16
    }

    /// The bytes of the message: the header, then the attribute records.
    pub open spec fn bytes(self) -> Seq<u8> {
        header_bytes(self.header) + nlas_bytes::<Nla>(self.nlas)
    }

    /// Whether the message can be written: each attribute can, and the
    /// length of the whole fits in `usize`.
    pub open spec fn emittable(self) -> bool {
        all_emittable::<Nla>(self.nlas) && LINK_HEADER_LEN + nlas_bytes::<Nla>(self.nlas).len()
            <= usize::MAX
    }

    /// Whether decoding can give the message: it can give each attribute
    /// under the address family of the header.
    pub open spec fn canonical(self) -> bool {
        forall|i: int|
            0 <= i < self.nlas.len() ==> (#[trigger] self.nlas[i]).canonical(self.family())
    }
}

/// What a buffer decodes to as a link message: `Truncated` where the header
/// does not fit; else the header and the attributes that the rest decodes
/// to under the address family of the header, or the first failure among
/// them.
pub open spec fn decoded_message(s: Seq<u8>) -> Result<LinkMessageView, DecodeError> {
    if s.len() < LINK_HEADER_LEN {
        Err(DecodeError::Truncated)
    } else {
        match parse_records(
            s.skip(LINK_HEADER_LEN as int),
            parser_with::<u16, Nla>(header_of(s).interface_family as u16),
        ) {
            Ok(nlas) => Ok(LinkMessageView { header: header_of(s), nlas }),
            Err(e) => Err(e),
        }
    }
}

impl LinkMessage {
    /// Whether the message can be written.
    pub fn is_emittable(&self) -> (b: bool)
        ensures
            b == self@.emittable(),
    {
        checked_buffer_len_all(self.nlas.as_slice(), usize::MAX - LINK_HEADER_LEN).is_some()
    }

    /// The bytes that the message takes in a buffer.
    pub fn buffer_len(&self) -> (n: usize)
        requires
            self@.emittable(),
        ensures
            n == self@.bytes().len(),
            n % 4 == 0,
    {
        proof {
            lemma_message_len(self@);
        }
        let attributes: usize = buffer_len_all(self.nlas.as_slice());
        LINK_HEADER_LEN + attributes
    }

    /// Writes the message at the start of `buffer`: the header, then the
    /// attributes in their order. What lies behind the message stays as it
    /// was.
    pub fn emit(&self, buffer: &mut [u8])
        requires
            self@.emittable(),
            old(buffer)@.len() >= self@.bytes().len(),
        ensures
            final(buffer)@ == self@.bytes() + old(buffer)@.skip(self@.bytes().len() as int),
    {
        proof {
            lemma_header_round_trip(self.header, Seq::empty());
        }
        self.header.emit(buffer);
        let ghost with_header = buffer@;
        let (_header, behind) = buffer.split_at_mut(LINK_HEADER_LEN);
        emit_all(self.nlas.as_slice(), behind);
        proof {
            let n = nlas_bytes::<Nla>(self@.nlas).len() as int;
            assert(with_header.skip(LINK_HEADER_LEN as int).skip(n) =~= old(buffer)@.skip(
                LINK_HEADER_LEN + n,
            ));
            assert(buffer@ =~= self@.bytes() + old(buffer)@.skip(self@.bytes().len() as int));
        }
    }

    /// Decodes the message that `buf` views: the header, then every
    /// attribute under the address family of the header. One attribute
    /// that fails fails the message.
    pub fn parse(buf: &LinkMessageBuffer) -> (r: Result<LinkMessage, DecodeError>)
        ensures
            result_view(r) == decoded_message(buf@),
    {
        let header = buf.header();
        let family: u16 = header.interface_family as u16;
        match parse_all_with_param::<u16, Nla>(buf.payload(), family) {
            Ok(nlas) => Ok(LinkMessage { header, nlas }),
            Err(e) => Err(e),
        }
    }
}

/// A message is a multiple of four bytes long, as long as its header and
/// its attributes together.
pub proof fn lemma_message_len(m: LinkMessageView)
    ensures
        m.bytes().len() == LINK_HEADER_LEN + nlas_bytes::<Nla>(m.nlas).len(),
        m.bytes().len() % 4 == 0,
{
    lemma_header_round_trip(m.header, Seq::empty());
    lemma_records_bytes_aligned(records_of::<Nla>(m.nlas));
}

/// Decoding undoes writing: a message that can be written, and that
/// decoding can give, decodes from its bytes to itself.
pub proof fn lemma_message_round_trip(m: LinkMessageView)
    requires
        m.emittable(),
        m.canonical(),
    ensures
        decoded_message(m.bytes()) == Ok::<LinkMessageView, DecodeError>(m),
{
    let f = parser_with::<u16, Nla>(m.family());
    let body = nlas_bytes::<Nla>(m.nlas);
    lemma_header_round_trip(m.header, body);
    assert forall|i: int| 0 <= i < m.nlas.len() implies f(
        <Nla as Attribute>::record_of(#[trigger] m.nlas[i]),
    ) == Ok::<NlaView, DecodeError>(m.nlas[i]) by {
        lemma_round_trip(m.nlas[i], m.family());
    }
    lemma_parse_written::<Nla>(m.nlas, f);
}

/// What a buffer decodes to is a message that decoding can give.
pub proof fn lemma_decoded_message_canonical(s: Seq<u8>)
    requires
        decoded_message(s) is Ok,
    ensures
        decoded_message(s)->Ok_0.canonical(),
{
    let m = decoded_message(s)->Ok_0;
    let f = parser_with::<u16, Nla>(m.family());
    let body = s.skip(LINK_HEADER_LEN as int);
    assert(parse_records(body, f) == Ok::<Seq<NlaView>, DecodeError>(m.nlas));
    assert forall|i: int| 0 <= i < m.nlas.len() implies (#[trigger] m.nlas[i]).canonical(
        m.family(),
    ) by {
        let r = lemma_parsed_from_records(body, f, i);
        lemma_decoded_canonical(r, m.family());
    }
}

/// Writing and decoding again changes nothing: the bytes that a decoded
/// message is written as decode to the same message, so they are written
/// as the same bytes again.
pub proof fn lemma_emission_is_fixed_point(s: Seq<u8>)
    requires
        decoded_message(s) is Ok,
        decoded_message(s)->Ok_0.emittable(),
    ensures
        decoded_message(decoded_message(s)->Ok_0.bytes()) == decoded_message(s),
{
    lemma_decoded_message_canonical(s);
    lemma_message_round_trip(decoded_message(s)->Ok_0);
}

} // verus!
