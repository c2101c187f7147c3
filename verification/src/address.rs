//! Component addresses.

use vstd::prelude::*;
use crate::cbor::{
    cbor_bytes, cbor_kind, cbor_tag, cbor_text, peek_kind, put_bytes, put_tag, read_bytes,
    read_tag, read_text, uint_head, DecodeError, ItemKind, BYTES, TAGGED,
};
use crate::descriptor::IDENTIFIER;

verus! {

/// The number of the Binary UUID tag, which marks a byte string as a UUID.
pub const BINARY_UUID: u64 = 37;

/// The sixteen bytes that the `uuid` crate reads out of `text`, or `None` where it reads no UUID
/// there.
pub uninterp spec fn uuid_parse(text: Seq<char>) -> Option<Seq<u8>>;

/// The text that the `uuid` crate writes for the UUID of these sixteen bytes.
pub uninterp spec fn uuid_text(bytes: Seq<u8>) -> Seq<char>;

/// Reads a UUID as it is written. This is `uuid::Uuid::parse_str`, with the UUID that it finds
/// turned into its bytes.
#[verifier::external_body]
fn parse_uuid(text: &str) -> (result: Option<[u8; 16]>)
    ensures
        match result {
            Some(bytes) => uuid_parse(text@) == Some(bytes@),
            None => uuid_parse(text@).is_none(),
        },
{
    uuid::Uuid::parse_str(text).ok().map(uuid::Uuid::into_bytes)
}

/// Writes a UUID. This is the `Display` of `uuid::Uuid`, for the UUID that has these bytes.
#[verifier::external_body]
fn format_uuid(bytes: &[u8; 16]) -> (text: String)
    ensures
        text@ == uuid_text(bytes@),
{
    uuid::Uuid::from_bytes(*bytes).to_string()
}

/// The text that is no UUID.
#[derive(Clone, Copy, Debug, PartialEq, Eq, Structural)]
pub struct ParseAddressError;

/// The bytes that stand for an address in encoded data: the Binary UUID tag, and under it the
/// sixteen bytes as a byte string.
pub open spec fn address_encoding(bytes: Seq<u8>) -> Seq<u8> {
    uint_head(TAGGED, BINARY_UUID) + uint_head(BYTES, bytes.len() as u64) + bytes
}

/// What reading an untagged address at `position` of `input` gives, where the item that stands
/// there is of `kind`: the bytes of the address and the position after it. A byte string has to
/// hold sixteen bytes, and a text string a UUID as it is written.
pub open spec fn address_body_decoding(input: Seq<u8>, position: nat, kind: ItemKind) -> Result<
    (Seq<u8>, nat),
    DecodeError,
> {
    match kind {
        ItemKind::Bytes => match cbor_bytes(input, position) {
            None => Err(DecodeError::Malformed),
            Some((bytes, after)) => if bytes.len() == 16 {
                Ok((bytes, after))
            } else {
                Err(DecodeError::ExpectedSixteenBytes)
            },
        },
        ItemKind::Text => match cbor_text(input, position) {
            None => Err(DecodeError::Malformed),
            Some((text, after)) => match uuid_parse(text) {
                None => Err(DecodeError::ExpectedUuidString),
                Some(bytes) => Ok((bytes, after)),
            },
        },
        _ => Err(DecodeError::ExpectedBytesOrString),
    }
}

/// What reading an address at `position` of `input` gives: the bytes of the address and the
/// position after it. The address may stand under one tag, which has to be the Binary UUID tag
/// or the Identifier tag.
pub open spec fn address_decoding(input: Seq<u8>, position: nat) -> Result<
    (Seq<u8>, nat),
    DecodeError,
> {
    match cbor_kind(input, position) {
        None => Err(DecodeError::Malformed),
        Some(ItemKind::Tag) => match cbor_tag(input, position) {
            None => Err(DecodeError::Malformed),
            Some((tag, after_tag)) => if tag != BINARY_UUID && tag != IDENTIFIER {
                Err(DecodeError::ExpectedUuidTag)
            } else {
                match cbor_kind(input, after_tag) {
                    None => Err(DecodeError::Malformed),
                    Some(kind) => address_body_decoding(input, after_tag, kind),
                }
            },
        },
        Some(kind) => address_body_decoding(input, position, kind),
    }
}

/// Every encoded address is nineteen bytes long: two for the tag, one for the head of the byte
/// string, and the sixteen of the address.
pub proof fn lemma_address_encoding_shape(bytes: Seq<u8>)
    requires
        bytes.len() == 16,
    ensures
        address_encoding(bytes) == seq![0xd8u8, 0x25u8, 0x50u8] + bytes,
        address_encoding(bytes).len() == 19,
{
    assert(TAGGED | 24u8 == 0xd8u8) by (bit_vector);
    assert(BYTES | 16u8 == 0x50u8) by (bit_vector);
    assert(address_encoding(bytes) =~= seq![0xd8u8, 0x25u8, 0x50u8] + bytes);
}

/// A component address: the sixteen bytes of a UUID.
#[derive(Clone, Copy, Debug, Default, PartialEq, Eq, PartialOrd, Ord, Hash)]
pub struct Address {
    bytes: [u8; 16],
}

impl View for Address {
    type V = Seq<u8>;

    closed spec fn view(&self) -> Seq<u8> {
        self.bytes@
    }
}

impl Address {
    /// Every address is sixteen bytes long.
    pub proof fn lemma_len(&self)
        ensures
            self@.len() == 16,
    {
    }

    /// Returns the bytes of the address.
    #[must_use]
    pub fn as_bytes(&self) -> (bytes: &[u8; 16])
        ensures
            bytes@ == self@,
    {
        &self.bytes
    }

    /// Makes an address of its bytes.
    #[must_use]
    pub fn from_bytes(b: [u8; 16]) -> (address: Address)
        ensures
            address@ == b@,
    {
        Address { bytes: b }
    }
}

impl Address {
    /// Reads an address as a UUID is written, in any of the forms that the `uuid` crate knows.
    pub fn from_str(s: &str) -> (result: Result<Address, ParseAddressError>)
        ensures
            match result {
                Ok(address) => uuid_parse(s@) == Some(address@),
                Err(_) => uuid_parse(s@).is_none(),
            },
    {
        match parse_uuid(s) {
            Some(bytes) => Ok(Address { bytes }),
            None => Err(ParseAddressError),
        }
    }

    /// Writes the address as a UUID is written.
    pub fn hyphenated(&self) -> (text: String)
        ensures
            text@ == uuid_text(self@),
    {
        format_uuid(&self.bytes)
    }

    /// Appends the encoding of the address to `out`: a byte string with the Binary UUID tag.
    pub fn encode(&self, out: &mut Vec<u8>)
        ensures
            final(out)@ == old(out)@ + address_encoding(self@),
    {
        put_tag(out, BINARY_UUID);
        put_bytes(out, self.bytes.as_slice());
        assert(out@ =~= old(out)@ + address_encoding(self@));
    }

    /// Decides whether a tag is one that an address may carry.
    pub fn check_tag(tag: u64) -> (result: Result<(), DecodeError>)
        ensures
            result == if tag == BINARY_UUID || tag == IDENTIFIER {
                Ok::<(), DecodeError>(())
            } else {
                Err::<(), DecodeError>(DecodeError::ExpectedUuidTag)
            },
    {
        if tag == BINARY_UUID || tag == IDENTIFIER {
            Ok(())
        } else {
            Err(DecodeError::ExpectedUuidTag)
        }
    }

    /// Makes an address of a byte string, which has to be sixteen bytes long.
    pub fn from_slice(bytes: &[u8]) -> (result: Result<Address, DecodeError>)
        ensures
            match result {
                Ok(address) => bytes@.len() == 16 && address@ == bytes@,
                Err(e) => bytes@.len() != 16 && e == DecodeError::ExpectedSixteenBytes,
            },
    {
        if bytes.len() != 16 {
            return Err(DecodeError::ExpectedSixteenBytes);
        }
        let address = Address {
            bytes: [
                bytes[0],
                bytes[1],
                bytes[2],
                bytes[3],
                bytes[4],
                bytes[5],
                bytes[6],
                bytes[7],
                bytes[8],
                bytes[9],
                bytes[10],
                bytes[11],
                bytes[12],
                bytes[13],
                bytes[14],
                bytes[15],
            ],
        };
        assert(address@ =~= bytes@);
        Ok(address)
    }

    /// Reads the address that stands at `position` of `input` without a tag, where the item
    /// there is known to be of `kind`.
    fn decode_body(input: &[u8], position: usize, kind: ItemKind) -> (result: Result<
        (Address, usize),
        DecodeError,
    >)
        ensures
            match result {
                Ok((address, after)) => address_body_decoding(input@, position as nat, kind)
                    == Ok::<(Seq<u8>, nat), DecodeError>((address@, after as nat)),
                Err(e) => address_body_decoding(input@, position as nat, kind) == Err::<
                    (Seq<u8>, nat),
                    DecodeError,
                >(e),
            },
    {
        match kind {
            ItemKind::Bytes => match read_bytes(input, position) {
                None => Err(DecodeError::Malformed),
                Some((bytes, after)) => match Address::from_slice(bytes) {
                    Ok(address) => Ok((address, after)),
                    Err(e) => Err(e),
                },
            },
            ItemKind::Text => match read_text(input, position) {
                None => Err(DecodeError::Malformed),
                Some((text, after)) => match Address::from_str(text) {
                    Ok(address) => Ok((address, after)),
                    Err(_) => Err(DecodeError::ExpectedUuidString),
                },
            },
            _ => Err(DecodeError::ExpectedBytesOrString),
        }
    }

    /// Reads an address at `position` of `input`, and returns it with the position after it.
    ///
    /// The address is a byte string of sixteen bytes or a text string that holds a UUID as it
    /// is written. It may stand under the Binary UUID tag, or under the Identifier tag, which
    /// older hosts used.
    pub fn decode(input: &[u8], position: usize) -> (result: Result<(Address, usize), DecodeError>)
        ensures
            match result {
                Ok((address, after)) => address_decoding(input@, position as nat) == Ok::<
                    (Seq<u8>, nat),
                    DecodeError,
                >((address@, after as nat)),
                Err(e) => address_decoding(input@, position as nat) == Err::<
                    (Seq<u8>, nat),
                    DecodeError,
                >(e),
            },
    {
        match peek_kind(input, position) {
            None => Err(DecodeError::Malformed),
            Some(ItemKind::Tag) => match read_tag(input, position) {
                None => Err(DecodeError::Malformed),
                Some((tag, after_tag)) => match Address::check_tag(tag) {
                    Err(e) => Err(e),
                    Ok(()) => match peek_kind(input, after_tag) {
                        None => Err(DecodeError::Malformed),
                        Some(kind) => Address::decode_body(input, after_tag, kind),
                    },
                },
            },
            Some(kind) => Address::decode_body(input, position, kind),
        }
    }
}

} // verus!
