//! The few CBOR items that descriptors, addresses and external references are made of.
//!
//! The items are written and read by `minicbor`. What it writes is stated here byte by byte.
//! What it reads is named, not spelled out: its decoder accepts more than one way of writing a
//! number, and the logic of this library needs only the thing that was read.

use vstd::prelude::*;

verus! {

/// The initial byte of an unsigned integer.
pub const UNSIGNED: u8 = 0x00;

/// The initial byte of a byte string, before its length is added.
pub const BYTES: u8 = 0x40;

/// The initial byte of an array, before its length is added.
pub const ARRAY: u8 = 0x80;

/// The initial byte of a tag, before its number is added.
pub const TAGGED: u8 = 0xc0;

/// The head of a data item: the major type in the high bits of the first byte, and the argument
/// `n` in the shortest of the five forms, big end first.
pub open spec fn uint_head(major: u8, n: u64) -> Seq<u8> {
    if n <= 0x17 {
        seq![major | ((n % 0x100) as u8)]
    } else if n <= 0xff {
        seq![major | 24u8, (n % 0x100) as u8]
    } else if n <= 0xffff {
        seq![major | 25u8, ((n / 0x100) % 0x100) as u8, (n % 0x100) as u8]
    } else if n <= 0xffff_ffff {
        seq![
            major | 26u8,
            ((n / 0x100_0000) % 0x100) as u8,
            ((n / 0x1_0000) % 0x100) as u8,
            ((n / 0x100) % 0x100) as u8,
            (n % 0x100) as u8,
        ]
    } else {
        seq![
            major | 27u8,
            ((n / 0x100_0000_0000_0000) % 0x100) as u8,
            ((n / 0x1_0000_0000_0000) % 0x100) as u8,
            ((n / 0x100_0000_0000) % 0x100) as u8,
            ((n / 0x1_0000_0000) % 0x100) as u8,
            ((n / 0x100_0000) % 0x100) as u8,
            ((n / 0x1_0000) % 0x100) as u8,
            ((n / 0x100) % 0x100) as u8,
            (n % 0x100) as u8,
        ]
    }
}

/// Writes a tag. This is `minicbor::encode::Encoder::tag` on a vector, which cannot fail: it
/// appends the head of major type 6 with the tag's number and nothing else.
#[verifier::external_body]
pub(crate) fn put_tag(out: &mut Vec<u8>, tag: u64)
    ensures
        final(out)@ == old(out)@ + uint_head(TAGGED, tag),
{
    let mut encoder = minicbor::encode::Encoder::new(out);
    let _ = encoder.tag(minicbor::data::Tag::new(tag));
}

/// Writes the head of an array of `len` items. This is `minicbor::encode::Encoder::array` on a
/// vector, which cannot fail: it appends the head of major type 4 with the length and nothing
/// else.
#[verifier::external_body]
pub(crate) fn put_array(out: &mut Vec<u8>, len: u64)
    ensures
        final(out)@ == old(out)@ + uint_head(ARRAY, len),
{
    let mut encoder = minicbor::encode::Encoder::new(out);
    let _ = encoder.array(len);
}

/// Writes an unsigned integer of at most eight bits. This is `minicbor::encode::Encoder::u8` on
/// a vector, which cannot fail: it appends the head of major type 0 with the value.
#[verifier::external_body]
pub(crate) fn put_u8(out: &mut Vec<u8>, value: u8)
    ensures
        final(out)@ == old(out)@ + uint_head(UNSIGNED, value as u64),
{
    let mut encoder = minicbor::encode::Encoder::new(out);
    let _ = encoder.u8(value);
}

/// Writes an unsigned integer of at most 32 bits. This is `minicbor::encode::Encoder::u32` on a
/// vector, which cannot fail: it appends the head of major type 0 with the value.
#[verifier::external_body]
pub(crate) fn put_u32(out: &mut Vec<u8>, value: u32)
    ensures
        final(out)@ == old(out)@ + uint_head(UNSIGNED, value as u64),
{
    let mut encoder = minicbor::encode::Encoder::new(out);
    let _ = encoder.u32(value);
}

/// Writes a byte string. This is `minicbor::encode::Encoder::bytes` on a vector, which cannot
/// fail: it appends the head of major type 2 with the string's length, and then the string.
#[verifier::external_body]
pub(crate) fn put_bytes(out: &mut Vec<u8>, value: &[u8])
    ensures
        final(out)@ == old(out)@ + uint_head(BYTES, value@.len() as u64) + value@,
{
    let mut encoder = minicbor::encode::Encoder::new(out);
    let _ = encoder.bytes(value);
}

/// The kinds of data item that the decoding of an address tells apart.
#[derive(Clone, Copy, Debug, PartialEq, Eq, Structural)]
pub enum ItemKind {
    /// A tag, which the tagged item follows.
    Tag,
    /// A byte string of definite length.
    Bytes,
    /// A text string of definite length.
    Text,
    /// Anything else.
    Other,
}

/// The tag that `minicbor`'s decoder reads at `position` of `input`, with the position after
/// it, or `None` where it reads no tag there.
pub uninterp spec fn cbor_tag(input: Seq<u8>, position: nat) -> Option<(u64, nat)>;

/// The integer that `minicbor`'s decoder reads as a `u32` at `position` of `input`, with the
/// position after it, or `None` where it reads none there.
pub uninterp spec fn cbor_u32(input: Seq<u8>, position: nat) -> Option<(u32, nat)>;

/// The byte string that `minicbor`'s decoder reads at `position` of `input`, with the position
/// after it, or `None` where it reads none there.
pub uninterp spec fn cbor_bytes(input: Seq<u8>, position: nat) -> Option<(Seq<u8>, nat)>;

/// The text string that `minicbor`'s decoder reads at `position` of `input`, with the position
/// after it, or `None` where it reads none there.
pub uninterp spec fn cbor_text(input: Seq<u8>, position: nat) -> Option<(Seq<char>, nat)>;

/// The kind of the data item that `minicbor`'s decoder sees at `position` of `input`, or `None`
/// where it cannot tell, as at the end of the input.
pub uninterp spec fn cbor_kind(input: Seq<u8>, position: nat) -> Option<ItemKind>;

/// Reads a tag. This is `minicbor::decode::Decoder::tag` on a decoder that stands at `position`
/// of `input`: the tag's number comes back with the position that the decoder has reached.
#[verifier::external_body]
pub(crate) fn read_tag(input: &[u8], position: usize) -> (result: Option<(u64, usize)>)
    ensures
        match result {
            Some((tag, after)) => cbor_tag(input@, position as nat) == Some((tag, after as nat)),
            None => cbor_tag(input@, position as nat).is_none(),
        },
{
    let mut decoder = minicbor::decode::Decoder::new(input);
    decoder.set_position(position);
    let tag = decoder.tag().ok()?;
    Some((tag.as_u64(), decoder.position()))
}

/// Reads an unsigned integer. This is `minicbor::decode::Decoder::u32` on a decoder that stands
/// at `position` of `input`: the integer comes back with the position that the decoder has
/// reached.
#[verifier::external_body]
pub(crate) fn read_u32(input: &[u8], position: usize) -> (result: Option<(u32, usize)>)
    ensures
        match result {
            Some((value, after)) => cbor_u32(input@, position as nat) == Some(
                (value, after as nat),
            ),
            None => cbor_u32(input@, position as nat).is_none(),
        },
{
    let mut decoder = minicbor::decode::Decoder::new(input);
    decoder.set_position(position);
    let value = decoder.u32().ok()?;
    Some((value, decoder.position()))
}

/// Reads a byte string. This is `minicbor::decode::Decoder::bytes` on a decoder that stands at
/// `position` of `input`: the string, which is a part of the input, comes back with the position
/// that the decoder has reached.
#[verifier::external_body]
pub(crate) fn read_bytes<'a>(input: &'a [u8], position: usize) -> (result: Option<
    (&'a [u8], usize),
>)
    ensures
        match result {
            Some((value, after)) => cbor_bytes(input@, position as nat) == Some(
                (value@, after as nat),
            ),
            None => cbor_bytes(input@, position as nat).is_none(),
        },
{
    let mut decoder = minicbor::decode::Decoder::new(input);
    decoder.set_position(position);
    let value = decoder.bytes().ok()?;
    Some((value, decoder.position()))
}

/// Reads a text string. This is `minicbor::decode::Decoder::str` on a decoder that stands at
/// `position` of `input`: the string, which is a part of the input, comes back with the position
/// that the decoder has reached.
#[verifier::external_body]
pub(crate) fn read_text<'a>(input: &'a [u8], position: usize) -> (result: Option<(&'a str, usize)>)
    ensures
        match result {
            Some((value, after)) => cbor_text(input@, position as nat) == Some(
                (value@, after as nat),
            ),
            None => cbor_text(input@, position as nat).is_none(),
        },
{
    let mut decoder = minicbor::decode::Decoder::new(input);
    decoder.set_position(position);
    let value = decoder.str().ok()?;
    Some((value, decoder.position()))
}

/// Looks at the next data item without reading it. This is
/// `minicbor::decode::Decoder::datatype` on a decoder that stands at `position` of `input`, with
/// the types that are neither tag nor byte string nor text string taken together.
#[verifier::external_body]
pub(crate) fn peek_kind(input: &[u8], position: usize) -> (result: Option<ItemKind>)
    ensures
        match result {
            Some(kind) => cbor_kind(input@, position as nat) == Some(kind),
            None => cbor_kind(input@, position as nat).is_none(),
        },
{
    let mut decoder = minicbor::decode::Decoder::new(input);
    decoder.set_position(position);
    Some(match decoder.datatype().ok()? {
        minicbor::data::Type::Tag => ItemKind::Tag,
        minicbor::data::Type::Bytes => ItemKind::Bytes,
        minicbor::data::Type::String => ItemKind::Text,
        _ => ItemKind::Other,
    })
}

/// The reasons for which encoded data is refused.
#[derive(Clone, Copy, Debug, PartialEq, Eq, Hash, Structural)]
pub enum DecodeError {
    /// The decoder found no item of the kind that has to stand at this place: the input ends, or
    /// holds something else, or holds a number that is too large.
    Malformed,
    /// A descriptor has to carry the Identifier tag, and the item carries another.
    ExpectedIdentifierTag,
    /// A tagged address has to carry the Binary UUID tag or the Identifier tag, and the item
    /// carries another.
    ExpectedUuidTag,
    /// An address in a byte string has to be sixteen bytes long.
    ExpectedSixteenBytes,
    /// An address in a text string has to be a UUID as it is written.
    ExpectedUuidString,
    /// An address has to be a byte string or a text string.
    ExpectedBytesOrString,
}

impl DecodeError {
    /// The text that describes each refusal.
    pub open spec fn description(self) -> Seq<char> {
        match self {
            DecodeError::Malformed => "malformed CBOR"@,
            DecodeError::ExpectedIdentifierTag => "expected Identifier tag"@,
            DecodeError::ExpectedUuidTag => "expected tag Binary UUID"@,
            DecodeError::ExpectedSixteenBytes => "expected 16 bytes"@,
            DecodeError::ExpectedUuidString => "expected UUID string"@,
            DecodeError::ExpectedBytesOrString => "expected byte or UTF-8 string"@,
        }
    }

    /// Returns a string describing the refusal.
    #[must_use]
    pub fn as_str(self) -> (text: &'static str)
        ensures
            text@ == self.description(),
    {
        match self {
            DecodeError::Malformed => "malformed CBOR",
            DecodeError::ExpectedIdentifierTag => "expected Identifier tag",
            DecodeError::ExpectedUuidTag => "expected tag Binary UUID",
            DecodeError::ExpectedSixteenBytes => "expected 16 bytes",
            DecodeError::ExpectedUuidString => "expected UUID string",
            DecodeError::ExpectedBytesOrString => "expected byte or UTF-8 string",
        }
    }
}

} // verus!
