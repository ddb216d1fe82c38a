//! A codec for the Netlink attribute wire format of the Linux kernel, with
//! the route and link attribute vocabularies built on it.
//!
//! A message is a fixed header followed by attribute records. A record is a
//! length, a 16-bit kind, a value, and zero bytes up to the next multiple of
//! four. Decoding turns a buffer into typed attributes and keeps the records
//! of unknown kinds as they came; writing turns the typed attributes back
//! into the same bytes.
//!
//! - `nla` is the engine: the checked view of one record, the walk over a
//!   buffer of records, the capability that every attribute type offers,
//!   and the helpers that lay out a sequence of attributes.
//! - `route` and `link` are the two vocabularies with their messages.
//! - `parsers` and `byte_order` hold the values inside attributes.
//! - `socket` decides which system calls a netlink socket asks for; the
//!   program around the library makes them.
//!
//! Every integer on the wire is in the byte order of the machine. The
//! specifications name that order through `vstd::endian::endianness()`.
//!
//! Each function states what it returns in terms of what a buffer decodes
//! to (`decoded`, `parse_records`) and of the bytes that a value is written
//! as (`record_bytes`, `nlas_bytes`, `bytes`). The proof functions named
//! `lemma_round_trip`, `lemma_decoded_canonical`, `lemma_unknown_kind` and
//! `lemma_emission_is_fixed_point` state how the two relate.

pub mod byte_order;
pub mod constants;
pub mod errors;
pub mod link;
pub mod nla;
pub mod parsers;
pub mod route;
pub mod socket;
