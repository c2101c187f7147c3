//! Descriptors which refer to opaque values such as open file handles.
//!
//! The host keeps opaque values in a table and names each entry by a small integer. This module
//! offers three views of such an integer. An [`Owned`] descriptor is responsible for releasing
//! its entry, a [`Borrowed`] descriptor refers to the entry of some owner without any such duty,
//! and a [`Decoded`] descriptor is what parsing untrusted data yields: it can do nothing until
//! its holder vouches for it.

use core::marker::PhantomData;
use vstd::prelude::*;
use crate::cbor::{
    cbor_tag, cbor_u32, put_tag, put_u32, read_tag, read_u32, uint_head, DecodeError, TAGGED,
    UNSIGNED,
};
use crate::error::{error_of_code, is_fatal_code, Error};

verus! {

/// The number of the Identifier tag, which marks an integer as a descriptor.
pub const IDENTIFIER: u64 = 39;

/// The bytes that stand for a descriptor in encoded data: the Identifier tag, and under it the
/// descriptor as an unsigned integer.
pub open spec fn descriptor_encoding(raw: u32) -> Seq<u8> {
    uint_head(TAGGED, IDENTIFIER) + uint_head(UNSIGNED, raw as u64)
}

/// What reading a descriptor at `position` of `input` gives: the descriptor and the position
/// after it, where a tag stands there that is the Identifier tag and an integer of at most 32
/// bits follows it.
pub open spec fn descriptor_decoding(input: Seq<u8>, position: nat) -> Result<
    (u32, nat),
    DecodeError,
> {
    match cbor_tag(input, position) {
        None => Err(DecodeError::Malformed),
        Some((tag, after_tag)) => if tag != IDENTIFIER {
            Err(DecodeError::ExpectedIdentifierTag)
        } else {
            match cbor_u32(input, after_tag) {
                None => Err(DecodeError::Malformed),
                Some(found) => Ok(found),
            }
        },
    }
}

/// Every encoded descriptor starts with the two bytes of the Identifier tag, and the integer
/// takes between one and five bytes more.
pub proof fn lemma_descriptor_encoding_shape(raw: u32)
    ensures
        3 <= descriptor_encoding(raw).len() <= 7,
        descriptor_encoding(raw)[0] == 0xd8,
        descriptor_encoding(raw)[1] == 0x27,
        raw <= 0x17 ==> descriptor_encoding(raw) == seq![0xd8u8, 0x27u8, raw as u8],
{
    assert(TAGGED | 24u8 == 0xd8u8) by (bit_vector);
    let low = (raw as u64 % 0x100) as u8;
    assert(UNSIGNED | low == low) by (bit_vector);
    if raw <= 0x17 {
        assert(descriptor_encoding(raw) =~= seq![0xd8u8, 0x27u8, raw as u8]);
    }
}

/// Appends the encoding of a descriptor to `out`.
pub fn cbor_encode(descriptor: u32, out: &mut Vec<u8>)
    ensures
        final(out)@ == old(out)@ + descriptor_encoding(descriptor),
{
    put_tag(out, IDENTIFIER);
    put_u32(out, descriptor);
    assert(out@ =~= old(out)@ + descriptor_encoding(descriptor));
}

/// What the host's answer to a request to duplicate a descriptor means: the fresh descriptor,
/// or the host's refusal.
pub open spec fn dup_outcome(status: int) -> Result<u32, Error> {
    if status >= 0 {
        Ok(status as u32)
    } else {
        Err(error_of_code(status))
    }
}

/// What the layer tells the host without expecting an answer.
#[derive(Clone, Copy, Debug, PartialEq, Eq, Structural)]
pub enum Notification {
    /// The table entry that the descriptor names is to be freed.
    Close(u32),
    /// The method call in flight is to be discarded.
    InvokeCancel,
}

/// A value that is able to provide an opaque value descriptor as a `u32`.
pub trait AsRaw {
    /// The descriptor that the value stands for.
    spec fn raw(&self) -> u32;

    /// Returns the raw descriptor value.
    fn as_raw(&self) -> (raw: u32)
        ensures
            raw == self.raw(),
    ;
}

/// A value that can be borrowed as an opaque value descriptor.
pub trait AsDescriptor: AsRaw {
    /// Borrows the descriptor.
    fn as_descriptor(&self) -> (borrowed: Borrowed<'_>)
        ensures
            borrowed@ == self.raw(),
    ;
}

/// A value that can be converted into an owned opaque value descriptor by consuming itself.
pub trait IntoDescriptor: AsRaw {
    /// Converts to the descriptor.
    fn into_descriptor(self) -> (owned: Owned)
        ensures
            owned@ == self.raw(),
    ;
}

/// An owned opaque value descriptor.
///
/// A value of this type claims the duty to release one entry of the host's table. It cannot be
/// copied: [`dup`](Owned::dup) asks the host for a second entry, and [`release`](Owned::release)
/// and [`into_inner`](Owned::into_inner) both consume the value, so that no entry is released
/// twice through it.
#[derive(Debug, PartialEq, Eq, PartialOrd, Ord, Hash, Structural)]
pub struct Owned {
    raw: u32,
}

impl View for Owned {
    type V = u32;

    closed spec fn view(&self) -> u32 {
        self.raw
    }
}

impl Owned {
    /// Wraps a raw integer descriptor.
    ///
    /// The caller vouches that `raw` names an open entry and that no other `Owned` value exists
    /// for it: releasing the result frees that entry.
    pub fn new(raw: u32) -> (owned: Owned)
        ensures
            owned@ == raw,
    {
        Owned { raw }
    }

    /// Gives up the duty to release and returns the raw value. The caller must see to it that
    /// the descriptor is closed in the end.
    #[must_use]
    pub fn into_inner(self) -> (raw: u32)
        ensures
            raw == self@,
    {
        self.raw
    }

    /// Returns the raw descriptor value.
    #[must_use]
    pub fn as_raw(&self) -> (raw: u32)
        ensures
            raw == self@,
    {
        self.raw
    }

    /// Decides what a duplication request gave, from the host's answer `status`.
    ///
    /// A status that is not negative is the fresh descriptor, which the result owns. A negative
    /// one is the host's refusal, which is [`Error::TooManyDescriptors`] when the table is full.
    /// The descriptor that was to be duplicated stays as it was either way.
    pub fn dup(&self, status: i32) -> (result: Result<Owned, Error>)
        requires
            !is_fatal_code(status as int),
        ensures
            match result {
                Ok(fresh) => dup_outcome(status as int) == Ok::<u32, Error>(fresh@),
                Err(e) => dup_outcome(status as int) == Err::<u32, Error>(e),
            },
    {
        match Error::from_i32(status) {
            Ok(fresh) => Ok(Owned { raw: fresh }),
            Err(e) => Err(e),
        }
    }

    /// Appends the encoding of the descriptor to `out`: an integer with the Identifier tag.
    pub fn encode(&self, out: &mut Vec<u8>)
        ensures
            final(out)@ == old(out)@ + descriptor_encoding(self@),
    {
        cbor_encode(self.raw, out)
    }

    /// Ends the handle's life: the one notification that frees its entry is handed back for the
    /// caller to send.
    #[must_use]
    pub fn release(self) -> (notice: Notification)
        ensures
            notice == Notification::Close(self@),
    {
        Notification::Close(self.raw)
    }
}

impl AsRaw for Owned {
    open spec fn raw(&self) -> u32 {
        self@
    }

    fn as_raw(&self) -> (raw: u32) {
        self.raw
    }
}

impl AsDescriptor for Owned {
    fn as_descriptor(&self) -> (borrowed: Borrowed<'_>) {
        Borrowed { raw: self.raw, owner: PhantomData }
    }
}

impl IntoDescriptor for Owned {
    fn into_descriptor(self) -> (owned: Owned) {
        self
    }
}

/// A borrowed opaque value descriptor.
///
/// It names the entry of some [`Owned`] value for as long as that owner is neither released nor
/// changed. Copies name the same entry, and letting one go releases nothing.
#[derive(Clone, Copy, Debug, PartialEq, Eq, PartialOrd, Ord, Hash)]
pub struct Borrowed<'a> {
    raw: u32,
    owner: PhantomData<&'a u32>,
}

impl View for Borrowed<'_> {
    type V = u32;

    closed spec fn view(&self) -> u32 {
        self.raw
    }
}

impl Borrowed<'_> {
    /// Returns the raw descriptor value.
    #[must_use]
    pub fn as_raw(self) -> (raw: u32)
        ensures
            raw == self@,
    {
        self.raw
    }
}

impl Borrowed<'_> {
    /// Appends the encoding of the descriptor to `out`: an integer with the Identifier tag.
    pub fn encode(&self, out: &mut Vec<u8>)
        ensures
            final(out)@ == old(out)@ + descriptor_encoding(self@),
    {
        cbor_encode(self.raw, out)
    }
}

impl AsRaw for Borrowed<'_> {
    open spec fn raw(&self) -> u32 {
        self@
    }

    fn as_raw(&self) -> (raw: u32) {
        self.raw
    }
}

impl AsDescriptor for Borrowed<'_> {
    fn as_descriptor(&self) -> (borrowed: Borrowed<'_>) {
        Borrowed { raw: self.raw, owner: PhantomData }
    }
}

/// A descriptor that was parsed from encoded data.
///
/// Such data may come from anywhere, so the value claims neither that its entry is open nor that
/// nobody else owns it, and no operation takes it. The one way on is
/// [`into_owned`](Decoded::into_owned).
#[derive(Debug, PartialEq, Eq, PartialOrd, Ord, Hash, Structural)]
pub struct Decoded {
    raw: u32,
}

impl View for Decoded {
    type V = u32;

    closed spec fn view(&self) -> u32 {
        self.raw
    }
}

impl Decoded {
    /// Decides whether a tag is the one that a descriptor has to carry.
    pub fn check_tag(tag: u64) -> (result: Result<(), DecodeError>)
        ensures
            result == if tag == IDENTIFIER {
                Ok::<(), DecodeError>(())
            } else {
                Err::<(), DecodeError>(DecodeError::ExpectedIdentifierTag)
            },
    {
        if tag == IDENTIFIER {
            Ok(())
        } else {
            Err(DecodeError::ExpectedIdentifierTag)
        }
    }

    /// Reads a descriptor at `position` of `input`, and returns it with the position after it.
    /// The data has to be an integer of at most 32 bits under the Identifier tag.
    pub fn decode(input: &[u8], position: usize) -> (result: Result<(Decoded, usize), DecodeError>)
        ensures
            match result {
                Ok((decoded, after)) => descriptor_decoding(input@, position as nat) == Ok::<
                    (u32, nat),
                    DecodeError,
                >((decoded@, after as nat)),
                Err(e) => descriptor_decoding(input@, position as nat) == Err::<
                    (u32, nat),
                    DecodeError,
                >(e),
            },
    {
        match read_tag(input, position) {
            None => Err(DecodeError::Malformed),
            Some((tag, after_tag)) => match Decoded::check_tag(tag) {
                Err(e) => Err(e),
                Ok(()) => match read_u32(input, after_tag) {
                    None => Err(DecodeError::Malformed),
                    Some((raw, after)) => Ok((Decoded { raw }, after)),
                },
            },
        }
    }

    /// Converts a `Decoded` descriptor into an [`Owned`] descriptor.
    ///
    /// The caller vouches that the value is the only reference to its descriptor and that the
    /// descriptor is open, as is the case for one that was decoded straight from the result of a
    /// method call: the host allots a fresh descriptor to every opaque value that it returns.
    pub fn into_owned(self) -> (owned: Owned)
        ensures
            owned@ == self@,
    {
        Owned { raw: self.raw }
    }
}

} // verus!
