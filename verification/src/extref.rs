//! Out-of-line byte-array and string references for more efficient CBOR encoding.
//!
//! A value of one of the two types here refers to a byte array or a string in the memory of the
//! guest. Its encoding does not copy the data: it is a small External Reference object that
//! holds where the data lies and how long it is, and the host reads the data from there. Whoever
//! encodes such a value keeps the data in place and unchanged until the host has taken the
//! encoded message.

use core::marker::PhantomData;
use vstd::prelude::*;
use vstd::string::StringSliceAdditionalSpecFns;
use crate::cbor::{put_array, put_tag, put_u32, put_u8, uint_head, ARRAY, TAGGED, UNSIGNED};

verus! {

/// The number of the External Reference tag.
pub const EXTERNAL_REFERENCE: u64 = 32769;

/// The major type of a byte string, which marks a reference to a byte array.
pub const BYTE_STRING_MAJOR: u8 = 2;

/// The major type of a text string, which marks a reference to a string.
pub const UNICODE_STRING_MAJOR: u8 = 3;

/// The bytes that stand for an external reference in encoded data: the External Reference tag,
/// and under it an array of the major type of what is referred to, its place and its length.
pub open spec fn reference_encoding(major: u8, pointer: u32, length: u32) -> Seq<u8> {
    uint_head(TAGGED, EXTERNAL_REFERENCE) + uint_head(ARRAY, 3) + uint_head(
        UNSIGNED,
        major as u64,
    ) + uint_head(UNSIGNED, pointer as u64) + uint_head(UNSIGNED, length as u64)
}

/// Every encoded reference starts with the three bytes of the tag, the head of an array of three
/// items and the major type.
pub proof fn lemma_reference_encoding_shape(major: u8, pointer: u32, length: u32)
    requires
        major <= 0x17,
    ensures
        reference_encoding(major, pointer, length).subrange(0, 5) == seq![
            0xd9u8,
            0x80u8,
            0x01u8,
            0x83u8,
            major,
        ],
        7 <= reference_encoding(major, pointer, length).len() <= 15,
{
    assert(TAGGED | 25u8 == 0xd9u8) by (bit_vector);
    assert(ARRAY | 3u8 == 0x83u8) by (bit_vector);
    assert(UNSIGNED | major == major) by (bit_vector);
    assert(reference_encoding(major, pointer, length).subrange(0, 5) =~= seq![
        0xd9u8,
        0x80u8,
        0x01u8,
        0x83u8,
        major,
    ]);
}

/// Appends the encoding of an external reference to `out`.
fn encode_reference(major: u8, pointer: u32, length: u32, out: &mut Vec<u8>)
    ensures
        final(out)@ == old(out)@ + reference_encoding(major, pointer, length),
{
    put_tag(out, EXTERNAL_REFERENCE);
    put_array(out, 3);
    put_u8(out, major);
    put_u32(out, pointer);
    put_u32(out, length);
    assert(out@ =~= old(out)@ + reference_encoding(major, pointer, length));
}

/// A reference to a byte array.
#[derive(Debug)]
pub struct Bytes<'a> {
    pointer: u32,
    length: u32,
    referent: PhantomData<&'a [u8]>,
}

impl<'a> Bytes<'a> {
    /// The place of the byte array in the memory of the guest.
    pub closed spec fn pointer(&self) -> u32 {
        self.pointer
    }

    /// The length of the byte array.
    pub closed spec fn length(&self) -> u32 {
        self.length
    }

    /// Wraps a byte array, which lies at `pointer` in the memory of the guest, in an external
    /// reference. The array stays borrowed for as long as the reference is alive.
    #[must_use]
    pub fn new(data: &'a [u8], pointer: u32) -> (reference: Bytes<'a>)
        requires
            data@.len() <= u32::MAX,
        ensures
            reference.pointer() == pointer,
            reference.length() == data@.len(),
    {
        Bytes { pointer, length: data.len() as u32, referent: PhantomData }
    }

    /// Appends the encoding of the reference to `out`.
    pub fn encode(&self, out: &mut Vec<u8>)
        ensures
            final(out)@ == old(out)@ + reference_encoding(
                BYTE_STRING_MAJOR,
                self.pointer(),
                self.length(),
            ),
    {
        encode_reference(BYTE_STRING_MAJOR, self.pointer, self.length, out)
    }
}

/// A reference to a text string.
#[derive(Debug)]
pub struct String<'a> {
    pointer: u32,
    length: u32,
    referent: PhantomData<&'a str>,
}

impl<'a> String<'a> {
    /// The place of the string in the memory of the guest.
    pub closed spec fn pointer(&self) -> u32 {
        self.pointer
    }

    /// The length of the string, in bytes.
    pub closed spec fn length(&self) -> u32 {
        self.length
    }

    /// Wraps a string, which lies at `pointer` in the memory of the guest, in an external
    /// reference. The string stays borrowed for as long as the reference is alive.
    #[must_use]
    pub fn new(data: &'a str, pointer: u32) -> (reference: String<'a>)
        requires
            data.spec_bytes().len() <= u32::MAX,
        ensures
            reference.pointer() == pointer,
            reference.length() == data.spec_bytes().len(),
    {
        String { pointer, length: data.len() as u32, referent: PhantomData }
    }

    /// Appends the encoding of the reference to `out`.
    pub fn encode(&self, out: &mut Vec<u8>)
        ensures
            final(out)@ == old(out)@ + reference_encoding(
                UNICODE_STRING_MAJOR,
                self.pointer(),
                self.length(),
            ),
    {
        encode_reference(UNICODE_STRING_MAJOR, self.pointer, self.length, out)
    }
}

} // verus!
