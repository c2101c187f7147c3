//! Components and the opaque values that they hand out: listing them, listing and documenting
//! their methods, and calling those methods.
//!
//! The host performs every request, and the program that embeds this library carries the request
//! to the host and the answer back. The functions here decide what an answer means. Each takes
//! the host's status for the request that it is named after, and where the host was given a
//! buffer to write into, the buffer as the host left it.

use core::marker::PhantomData;
use vstd::prelude::*;
use crate::address::Address;
use crate::descriptor::Notification;
use crate::error::{error_of_code, is_fatal_code, Error};
use crate::helpers::{call_buffer, call_buffer_len, call_string, fits_buffer};
use crate::token::{take_step, TokenKind, Tokens};

verus! {

/// An object that is capable of listing components attached to the computer.
///
/// Only one component listing can be in progress at a time, so only one value of this type can
/// exist.
#[derive(Debug)]
pub struct Lister {
    unique: (),
}

impl Lister {
    /// Returns the lister the first time that it is asked for, and `None` ever after.
    #[must_use]
    pub fn take(tokens: &mut Tokens) -> (lister: Option<Lister>)
        ensures
            (lister.is_some(), final(tokens)@) == take_step(old(tokens)@, TokenKind::Lister),
    {
        if tokens.claim(TokenKind::Lister) {
            Some(Lister { unique: () })
        } else {
            None
        }
    }

    /// Begins listing the components attached to the computer, once the host has answered the
    /// request to start with `status`. The host has no reason to refuse, so a negative status is
    /// no input. The listing stands before the first component.
    pub fn start<'lister>(&'lister mut self, status: i32) -> (listing: Listing<'lister>)
        requires
            status >= 0,
        ensures
            listing@ == 0,
    {
        Listing { position: Ghost(0), lister: PhantomData }
    }
}

/// What the host's answer to a request for the next component means: the address that the host
/// wrote to the buffer, unless the answer is 0, which says that there is no next component.
pub open spec fn list_next_outcome(status: int, buffer: Seq<u8>) -> Option<Seq<u8>> {
    if status == 0 {
        None
    } else {
        Some(buffer)
    }
}

/// Where a component listing stands once the host has answered a request for the next
/// component with `status`, if it stood at `position` before: one further on where the host
/// handed out a component, and where it was when the host had none left.
pub open spec fn list_position_after(position: nat, status: int) -> nat {
    if status == 0 {
        position
    } else {
        position + 1
    }
}

/// An in-progress component listing, which borrows the lister that performs it.
///
/// The host keeps the sequence that is listed. The listing knows how far it has come: its view
/// is the number of components that it has handed out.
#[must_use]
pub struct Listing<'lister> {
    position: Ghost<nat>,
    lister: PhantomData<&'lister mut Lister>,
}

impl View for Listing<'_> {
    type V = nat;

    /// The number of components that the listing has handed out.
    closed spec fn view(&self) -> nat {
        self.position@
    }
}

impl<'lister> Listing<'lister> {
    /// Returns the next entry in the list of components.
    ///
    /// The host answers a request for the next entry with 0 when there is none. Otherwise it
    /// has written the entry's address to `buffer`.
    pub fn next<'listing>(&'listing mut self, status: i32, buffer: [u8; 16]) -> (entry: Option<
        ListEntry<'listing, 'lister>,
    >)
        requires
            status >= 0,
        ensures
            match entry {
                Some(e) => list_next_outcome(status as int, buffer@) == Some(e@),
                None => list_next_outcome(status as int, buffer@).is_none(),
            },
            final(self)@ == list_position_after(old(self)@, status as int),
    {
        if status == 0 {
            None
        } else {
            self.position = Ghost((self.position@ + 1) as nat);
            Some(ListEntry { address: Address::from_bytes(buffer), listing: PhantomData })
        }
    }
}

/// A single entry of a listing. It borrows the listing, which therefore cannot move on while
/// the entry is in use.
#[derive(Debug)]
pub struct ListEntry<'listing, 'lister> {
    address: Address,
    listing: PhantomData<&'listing mut Listing<'lister>>,
}

impl View for ListEntry<'_, '_> {
    type V = Seq<u8>;

    /// The bytes of the component's address.
    closed spec fn view(&self) -> Seq<u8> {
        self.address@
    }
}

impl ListEntry<'_, '_> {
    /// Returns the address of the component.
    #[must_use]
    pub fn address(&self) -> (address: &Address)
        ensures
            address@ == self@,
    {
        &self.address
    }

    /// Returns the length, in bytes, of the component's type. No component has an empty type,
    /// and the host has no reason to refuse, so only a positive status is an input.
    #[must_use]
    pub fn type_name_len(&self, status: isize) -> (len: usize)
        requires
            status > 0,
        ensures
            len == status,
    {
        status as usize
    }

    /// Returns the type of the most recently listed component: the part of `buffer` that the
    /// host wrote, or [`Error::BufferTooShort`] if the buffer could not hold the type.
    pub fn component_type<'buffer>(&self, status: isize, buffer: &'buffer [u8]) -> (result: Result<
        &'buffer [u8],
        Error,
    >)
        requires
            fits_buffer(status as int, buffer@.len()),
        ensures
            match result {
                Ok(name) => status >= 0 && name@ == buffer@.subrange(0, status as int),
                Err(e) => status < 0 && e == error_of_code(status as int),
            },
    {
        call_buffer(status, buffer)
    }
}

/// Returns the length, in bytes, of the type of a component, or [`Error::NoSuchComponent`] if
/// the component does not exist or is inaccessible. No component has an empty type, so 0 is no
/// input.
pub fn component_type_len(status: isize) -> (result: Result<usize, Error>)
    requires
        !is_fatal_code(status as int),
        status != 0,
    ensures
        match result {
            Ok(len) => status > 0 && len == status,
            Err(e) => status < 0 && e == error_of_code(status as int),
        },
{
    call_buffer_len(status)
}

/// Returns the type of a component: the part of `buffer` that the host wrote. The error is
/// [`Error::BufferTooShort`] if the buffer could not hold the type, and
/// [`Error::NoSuchComponent`] if the component does not exist or is inaccessible.
pub fn component_type<'buf>(status: isize, buffer: &'buf [u8]) -> (result: Result<
    &'buf [u8],
    Error,
>)
    requires
        fits_buffer(status as int, buffer@.len()),
    ensures
        match result {
            Ok(name) => status >= 0 && name@ == buffer@.subrange(0, status as int),
            Err(e) => status < 0 && e == error_of_code(status as int),
        },
{
    call_buffer(status, buffer)
}

/// Returns the slot that a component is installed into. The error is
/// [`Error::NoSuchComponent`] if the component does not exist or is inaccessible, and
/// [`Error::Other`] if it exists but is not installed in a slot.
pub fn slot(status: i32) -> (result: Result<u32, Error>)
    requires
        !is_fatal_code(status as int),
    ensures
        match result {
            Ok(index) => status >= 0 && index == status,
            Err(e) => status < 0 && e == error_of_code(status as int),
        },
{
    call_string(status)
}

/// An object that is capable of listing methods on a component or opaque value.
///
/// Only one method listing can be in progress at a time, so only one value of this type can
/// exist.
#[derive(Debug)]
pub struct MethodLister {
    unique: (),
}

impl MethodLister {
    /// Returns the lister the first time that it is asked for, and `None` ever after.
    #[must_use]
    pub fn take(tokens: &mut Tokens) -> (lister: Option<MethodLister>)
        ensures
            (lister.is_some(), final(tokens)@) == take_step(
                old(tokens)@,
                TokenKind::MethodLister,
            ),
    {
        if tokens.claim(TokenKind::MethodLister) {
            Some(MethodLister { unique: () })
        } else {
            None
        }
    }

    /// Begins iteration over the methods available on a component, or fails with
    /// [`Error::NoSuchComponent`] if the component does not exist or is inaccessible.
    pub fn start_component<'lister>(&'lister mut self, status: i32) -> (result: Result<
        MethodListing<'lister>,
        Error,
    >)
        requires
            !is_fatal_code(status as int),
        ensures
            match result {
                Ok(listing) => status >= 0 && listing@ == 0,
                Err(e) => status < 0 && e == error_of_code(status as int),
            },
    {
        match Error::from_i32(status) {
            Ok(_) => Ok(MethodListing { position: Ghost(0), lister: PhantomData }),
            Err(e) => Err(e),
        }
    }

    /// Begins iteration over the methods available on an opaque value. The value is named by a
    /// descriptor that is open while it is borrowed, so the host has nothing to refuse and its
    /// answer is not looked at. The listing stands before the first method.
    pub fn start_value(&mut self) -> (listing: MethodListing<'_>)
        ensures
            listing@ == 0,
    {
        MethodListing { position: Ghost(0), lister: PhantomData }
    }
}

/// The possible attributes of a method.
#[derive(Clone, Copy, Debug, PartialEq, Eq, Hash, Structural)]
pub struct MethodAttributes {
    /// The method is direct: it can be called and completed within a single timeslice.
    pub direct: bool,
    /// The method is a property getter.
    pub getter: bool,
    /// The method is a property setter.
    pub setter: bool,
}

/// The attributes that the bits of `value` stand for: bit 0 for direct, bit 1 for getter and
/// bit 2 for setter. The other bits mean nothing.
pub open spec fn attributes_of_bits(value: u32) -> MethodAttributes {
    MethodAttributes {
        direct: (value & 1) != 0,
        getter: (value & 2) != 0,
        setter: (value & 4) != 0,
    }
}

/// The three low bits of a mask are the remainders that arithmetic gives: direct is the parity
/// of the mask, getter that of its half and setter that of its quarter.
pub proof fn lemma_attributes_arithmetic(value: u32)
    ensures
        attributes_of_bits(value).direct == (value % 2 == 1),
        attributes_of_bits(value).getter == ((value / 2) % 2 == 1),
        attributes_of_bits(value).setter == ((value / 4) % 2 == 1),
{
    assert(((value & 1) != 0) == (value % 2 == 1)) by (bit_vector);
    assert(((value & 2) != 0) == ((value / 2) % 2 == 1)) by (bit_vector);
    assert(((value & 4) != 0) == ((value / 4) % 2 == 1)) by (bit_vector);
}

impl vstd::std_specs::convert::FromSpecImpl<u32> for MethodAttributes {
    open spec fn obeys_from_spec() -> bool {
        true
    }

    open spec fn from_spec(value: u32) -> MethodAttributes {
        attributes_of_bits(value)
    }
}

impl From<u32> for MethodAttributes {
    /// Reads the attributes off the bit mask that the host reports for a method.
    fn from(value: u32) -> (attributes: MethodAttributes) {
        MethodAttributes {
            direct: (value & 1) != 0,
            getter: (value & 2) != 0,
            setter: (value & 4) != 0,
        }
    }
}

/// What the host's answer to a request for the next method means. A negative status is the
/// host's refusal, 0 says that there is no next method, and any other status is the length of
/// the method's name, which the host wrote to the start of the buffer.
pub open spec fn methods_next_outcome(status: int, attributes: u32, buffer: Seq<u8>) -> Result<
    Option<(Seq<u8>, MethodAttributes)>,
    Error,
> {
    if status < 0 {
        Err(error_of_code(status))
    } else if status == 0 {
        Ok(None)
    } else {
        Ok(Some((buffer.subrange(0, status), attributes_of_bits(attributes))))
    }
}

/// Where a method listing stands once the host has answered a request for the next method
/// with `status`, if it stood at `position` before: one further on where the host handed out a
/// method, and where it was when the host had none left or refused, as it does for a buffer that
/// is too short.
pub open spec fn methods_position_after(position: nat, status: int) -> nat {
    if status > 0 {
        position + 1
    } else {
        position
    }
}

/// An in-progress method listing, which borrows the lister that performs it.
///
/// The host keeps the sequence that is listed. The listing knows how far it has come: its view
/// is the number of methods that it has handed out.
#[must_use]
pub struct MethodListing<'lister> {
    position: Ghost<nat>,
    lister: PhantomData<&'lister mut MethodLister>,
}

impl View for MethodListing<'_> {
    type V = nat;

    /// The number of methods that the listing has handed out.
    closed spec fn view(&self) -> nat {
        self.position@
    }
}

impl MethodListing<'_> {
    /// Returns the length, in bytes, of the name of the next method in the list of methods, or
    /// `None` if there is no next method. The listing does not move on. The host has no reason
    /// to refuse, so a negative status is no input.
    #[must_use]
    pub fn next_len(&self, status: isize) -> (len: Option<usize>)
        requires
            status >= 0,
        ensures
            status == 0 <==> len.is_none(),
            len matches Some(n) ==> n == status,
    {
        if status == 0 {
            None
        } else {
            Some(status as usize)
        }
    }

    /// Returns the next method in the list of methods.
    ///
    /// If there was a next method, the host has written its name to `buffer` and reported its
    /// attributes as the bit mask `attributes`, and the listing has moved on: the name and the
    /// attributes are returned. If there was none, the host has answered 0 and `None` is
    /// returned. If the buffer could not hold the name, the error is
    /// [`Error::BufferTooShort`] and the listing has not moved on.
    pub fn next<'buffer>(
        &mut self,
        status: isize,
        attributes: u32,
        buffer: &'buffer [u8],
    ) -> (result: Result<Option<(&'buffer [u8], MethodAttributes)>, Error>)
        requires
            fits_buffer(status as int, buffer@.len()),
        ensures
            match result {
                Ok(None) => methods_next_outcome(status as int, attributes, buffer@) == Ok::<
                    Option<(Seq<u8>, MethodAttributes)>,
                    Error,
                >(None),
                Ok(Some((name, found))) => methods_next_outcome(
                    status as int,
                    attributes,
                    buffer@,
                ) == Ok::<Option<(Seq<u8>, MethodAttributes)>, Error>(Some((name@, found))),
                Err(e) => methods_next_outcome(status as int, attributes, buffer@) == Err::<
                    Option<(Seq<u8>, MethodAttributes)>,
                    Error,
                >(e),
            },
            final(self)@ == methods_position_after(old(self)@, status as int),
    {
        match call_buffer(status, buffer) {
            Ok(name) => {
                if status == 0 {
                    Ok(None)
                } else {
                    self.position = Ghost((self.position@ + 1) as nat);
                    Ok(Some((name, MethodAttributes::from(attributes))))
                }
            },
            Err(e) => Err(e),
        }
    }
}

/// Returns the length, in bytes, of the documentation for a method on a component. The error is
/// [`Error::NoSuchComponent`] if the component does not exist or is inaccessible, and
/// [`Error::NoSuchMethod`] if it has no such method.
pub fn documentation_component_length(status: isize) -> (result: Result<usize, Error>)
    requires
        !is_fatal_code(status as int),
    ensures
        match result {
            Ok(len) => status >= 0 && len == status,
            Err(e) => status < 0 && e == error_of_code(status as int),
        },
{
    call_buffer_len(status)
}

/// Returns the documentation for a method on a component: the part of `buffer` that the host
/// wrote. The error is [`Error::BufferTooShort`] if the buffer could not hold the
/// documentation, [`Error::NoSuchComponent`] if the component does not exist or is
/// inaccessible, and [`Error::NoSuchMethod`] if it has no such method.
pub fn documentation_component<'buf>(status: isize, buffer: &'buf [u8]) -> (result: Result<
    &'buf [u8],
    Error,
>)
    requires
        fits_buffer(status as int, buffer@.len()),
    ensures
        match result {
            Ok(text) => status >= 0 && text@ == buffer@.subrange(0, status as int),
            Err(e) => status < 0 && e == error_of_code(status as int),
        },
{
    call_buffer(status, buffer)
}

/// Returns the length, in bytes, of the documentation for a method on a value, or
/// [`Error::NoSuchMethod`] if the value has no such method.
pub fn documentation_value_length(status: isize) -> (result: Result<usize, Error>)
    requires
        !is_fatal_code(status as int),
    ensures
        match result {
            Ok(len) => status >= 0 && len == status,
            Err(e) => status < 0 && e == error_of_code(status as int),
        },
{
    call_buffer_len(status)
}

/// Returns the documentation for a method on a value: the part of `buffer` that the host wrote.
/// The error is [`Error::BufferTooShort`] if the buffer could not hold the documentation, and
/// [`Error::NoSuchMethod`] if the value has no such method.
pub fn documentation_value<'buf>(status: isize, buffer: &'buf [u8]) -> (result: Result<
    &'buf [u8],
    Error,
>)
    requires
        fits_buffer(status as int, buffer@.len()),
    ensures
        match result {
            Ok(text) => status >= 0 && text@ == buffer@.subrange(0, status as int),
            Err(e) => status < 0 && e == error_of_code(status as int),
        },
{
    call_buffer(status, buffer)
}

/// The possible results of a successful start to a method call.
#[derive(Clone, Copy, Debug, PartialEq, Eq, PartialOrd, Ord, Hash, Structural)]
pub enum InvokeResult {
    /// The method is complete and its result can be fetched immediately.
    Complete,
    /// The method is not finished yet; its result can be fetched on the next timeslice.
    Incomplete,
}

/// What the host's answer to the start of a call means. A negative status is the host's refusal:
/// [`Error::CborDecode`] for parameters that are no valid CBOR, [`Error::BadDescriptor`] for
/// parameters that refer to a descriptor that is not open, [`Error::TooManyDescriptors`] for a
/// full descriptor table. Otherwise the call is in flight, complete if the status is not 0.
pub open spec fn start_outcome(status: int) -> Result<InvokeResult, Error> {
    if status < 0 {
        Err(error_of_code(status))
    } else if status != 0 {
        Ok(InvokeResult::Complete)
    } else {
        Ok(InvokeResult::Incomplete)
    }
}

/// An object that is capable of invoking methods.
///
/// Only one method can be invoked at a time, so only one value of this type can exist.
#[derive(Debug)]
pub struct Invoker {
    unique: (),
}

impl Invoker {
    /// Returns the invoker the first time that it is asked for, and `None` ever after.
    #[must_use]
    pub fn take(tokens: &mut Tokens) -> (invoker: Option<Invoker>)
        ensures
            (invoker.is_some(), final(tokens)@) == take_step(old(tokens)@, TokenKind::Invoker),
    {
        if tokens.claim(TokenKind::Invoker) {
            Some(Invoker { unique: () })
        } else {
            None
        }
    }

    /// Decides how a call has started, whatever it was a call of. The call that comes back
    /// borrows the invoker for as long as it is in flight.
    fn started<'invoker>(&'invoker mut self, status: i32) -> (result: Result<
        (InvokeResult, MethodCall<'invoker>),
        Error,
    >)
        requires
            !is_fatal_code(status as int),
        ensures
            match result {
                Ok((hint, _)) => start_outcome(status as int) == Ok::<InvokeResult, Error>(hint),
                Err(e) => start_outcome(status as int) == Err::<InvokeResult, Error>(e),
            },
    {
        match Error::from_i32(status) {
            Ok(done) => {
                let hint = if done != 0 {
                    InvokeResult::Complete
                } else {
                    InvokeResult::Incomplete
                };
                Ok((hint, MethodCall { invoker: PhantomData }))
            },
            Err(e) => Err(e),
        }
    }

    /// Starts invoking a method on a component: `status` is the host's answer to the request
    /// that named the component, the method and the parameters.
    pub fn component_method<'invoker>(&'invoker mut self, status: i32) -> (result: Result<
        (InvokeResult, MethodCall<'invoker>),
        Error,
    >)
        requires
            !is_fatal_code(status as int),
        ensures
            match result {
                Ok((hint, _)) => start_outcome(status as int) == Ok::<InvokeResult, Error>(hint),
                Err(e) => start_outcome(status as int) == Err::<InvokeResult, Error>(e),
            },
    {
        self.started(status)
    }

    /// Starts invoking a callable opaque value: `status` is the host's answer to the request
    /// that named the value and the parameters.
    pub fn value<'invoker>(&'invoker mut self, status: i32) -> (result: Result<
        (InvokeResult, MethodCall<'invoker>),
        Error,
    >)
        requires
            !is_fatal_code(status as int),
        ensures
            match result {
                Ok((hint, _)) => start_outcome(status as int) == Ok::<InvokeResult, Error>(hint),
                Err(e) => start_outcome(status as int) == Err::<InvokeResult, Error>(e),
            },
    {
        self.started(status)
    }

    /// Starts reading from an index of an opaque value: `status` is the host's answer to the
    /// request that named the value and the index.
    pub fn value_indexed_read<'invoker>(&'invoker mut self, status: i32) -> (result: Result<
        (InvokeResult, MethodCall<'invoker>),
        Error,
    >)
        requires
            !is_fatal_code(status as int),
        ensures
            match result {
                Ok((hint, _)) => start_outcome(status as int) == Ok::<InvokeResult, Error>(hint),
                Err(e) => start_outcome(status as int) == Err::<InvokeResult, Error>(e),
            },
    {
        self.started(status)
    }

    /// Starts writing to an index of an opaque value: `status` is the host's answer to the
    /// request that named the value, the index and the value to write.
    pub fn value_indexed_write<'invoker>(&'invoker mut self, status: i32) -> (result: Result<
        (InvokeResult, MethodCall<'invoker>),
        Error,
    >)
        requires
            !is_fatal_code(status as int),
        ensures
            match result {
                Ok((hint, _)) => start_outcome(status as int) == Ok::<InvokeResult, Error>(hint),
                Err(e) => start_outcome(status as int) == Err::<InvokeResult, Error>(e),
            },
    {
        self.started(status)
    }

    /// Starts invoking a method on an opaque value: `status` is the host's answer to the
    /// request that named the value, the method and the parameters.
    pub fn value_method<'invoker>(&'invoker mut self, status: i32) -> (result: Result<
        (InvokeResult, MethodCall<'invoker>),
        Error,
    >)
        requires
            !is_fatal_code(status as int),
        ensures
            match result {
                Ok((hint, _)) => start_outcome(status as int) == Ok::<InvokeResult, Error>(hint),
                Err(e) => start_outcome(status as int) == Err::<InvokeResult, Error>(e),
            },
    {
        self.started(status)
    }
}

/// An in-progress method call, which borrows the invoker that performs it.
///
/// The host keeps the call until its result has been fetched or the call has been cancelled.
/// Whoever lets go of a value of this type without fetching the result owes the host the
/// notification that [`cancel`](MethodCall::cancel) returns.
#[derive(Debug, PartialEq, Eq)]
#[must_use]
pub struct MethodCall<'invoker> {
    invoker: PhantomData<&'invoker mut Invoker>,
}

/// What an answer to a request for a call's result means, apart from the call itself.
pub enum EndOutcome {
    /// The call is over: it gave a result of so many bytes, or it failed.
    Done(Result<nat, Error>),
    /// The call is complete, and the buffer cannot hold its result.
    BufferTooShort,
    /// The call is not finished yet.
    Pending,
}

/// What the host's answer to a request for the length of a call's result means.
pub open spec fn end_length_outcome(status: int) -> EndOutcome {
    if status >= 0 {
        EndOutcome::Done(Ok(status as nat))
    } else if error_of_code(status) == Error::QueueEmpty {
        EndOutcome::Pending
    } else {
        EndOutcome::Done(Err(error_of_code(status)))
    }
}

/// What the host's answer to a request for a call's result means.
pub open spec fn end_outcome(status: int) -> EndOutcome {
    if status >= 0 {
        EndOutcome::Done(Ok(status as nat))
    } else if error_of_code(status) == Error::BufferTooShort {
        EndOutcome::BufferTooShort
    } else if error_of_code(status) == Error::QueueEmpty {
        EndOutcome::Pending
    } else {
        EndOutcome::Done(Err(error_of_code(status)))
    }
}

impl<'invoker> MethodCall<'invoker> {
    /// Returns the length, in bytes, of the result of the method call, or an indication that
    /// the call is not finished.
    ///
    /// Where the call gave a result, the length comes with the call, which can then fetch the
    /// bytes. Where the call failed, it is over and its error is returned: this is
    /// [`Error::NoSuchComponent`], [`Error::NoSuchMethod`], [`Error::BadParameters`] or
    /// [`Error::Other`].
    #[must_use]
    pub fn end_length(self, status: isize) -> (result: InvokeEndLengthResult<'invoker>)
        requires
            !is_fatal_code(status as int),
        ensures
            result.outcome() == end_length_outcome(status as int),
    {
        match call_buffer_len(status) {
            Ok(n) => InvokeEndLengthResult::Done(Ok((n, self))),
            Err(Error::QueueEmpty) => InvokeEndLengthResult::Pending(self),
            Err(e) => InvokeEndLengthResult::Done(Err(e)),
        }
    }

    /// Returns the result of the method call, or an indication that the call is not finished.
    ///
    /// Where the host wrote the result into the buffer that it was given, the number of bytes
    /// written is returned. Where that buffer was too short, or the call is not finished, the
    /// call comes back for another attempt. Where the call failed, it is over and its error is
    /// returned: this is [`Error::NoSuchComponent`], [`Error::NoSuchMethod`],
    /// [`Error::BadParameters`] or [`Error::Other`].
    pub fn end(self, status: isize) -> (result: InvokeEndResult<'invoker>)
        requires
            !is_fatal_code(status as int),
        ensures
            result.outcome() == end_outcome(status as int),
    {
        match Error::from_isize(status) {
            Err(Error::BufferTooShort) => InvokeEndResult::BufferTooShort(self),
            Err(Error::QueueEmpty) => InvokeEndResult::Pending(self),
            Ok(n) => InvokeEndResult::Done(Ok(n)),
            Err(e) => InvokeEndResult::Done(Err(e)),
        }
    }

    /// Gives the call up: the one notification that makes the host discard it is handed back
    /// for the caller to send, and the invoker is free for the next call.
    #[must_use]
    pub fn cancel(self) -> (notice: Notification)
        ensures
            notice == Notification::InvokeCancel,
    {
        Notification::InvokeCancel
    }
}

/// The result of a call to [`end_length`](MethodCall::end_length).
#[derive(Debug, PartialEq, Eq)]
pub enum InvokeEndLengthResult<'invoker> {
    /// The method call is complete. If it completed successfully, the `Result` holds the length
    /// of the call result, in bytes, and the call, which can fetch the result. If it failed, the
    /// `Result` holds the error.
    Done(Result<(usize, MethodCall<'invoker>), Error>),
    /// The method call is not finished yet. The call is returned so the caller can continue to
    /// monitor progress.
    Pending(MethodCall<'invoker>),
}

impl InvokeEndLengthResult<'_> {
    /// The result apart from the call that it may carry.
    pub open spec fn outcome(&self) -> EndOutcome {
        match self {
            InvokeEndLengthResult::Done(Ok((n, _))) => EndOutcome::Done(Ok(*n as nat)),
            InvokeEndLengthResult::Done(Err(e)) => EndOutcome::Done(Err(*e)),
            InvokeEndLengthResult::Pending(_) => EndOutcome::Pending,
        }
    }
}

/// The result of a call to [`end`](MethodCall::end).
#[derive(Debug, PartialEq, Eq)]
pub enum InvokeEndResult<'invoker> {
    /// The method call is complete and the result has been fetched. If it completed
    /// successfully, the `Result` holds the number of bytes of the result. If it failed, the
    /// `Result` holds the error.
    Done(Result<usize, Error>),
    /// The method call is complete but the provided buffer was too short to hold the result.
    /// The call is returned so the caller can retry with a larger buffer.
    BufferTooShort(MethodCall<'invoker>),
    /// The method call is not finished yet. The call is returned so the caller can continue to
    /// monitor progress.
    Pending(MethodCall<'invoker>),
}

impl InvokeEndResult<'_> {
    /// The result apart from the call that it may carry.
    pub open spec fn outcome(&self) -> EndOutcome {
        match self {
            InvokeEndResult::Done(Ok(n)) => EndOutcome::Done(Ok(*n as nat)),
            InvokeEndResult::Done(Err(e)) => EndOutcome::Done(Err(*e)),
            InvokeEndResult::BufferTooShort(_) => EndOutcome::BufferTooShort,
            InvokeEndResult::Pending(_) => EndOutcome::Pending,
        }
    }

    /// Unwraps the result for a caller who knows that the call is complete and that the buffer
    /// was large enough. Where it was not so, the call that came back is given up, and the error
    /// is [`Error::BufferTooShort`] or [`Error::QueueEmpty`].
    pub fn expect_done(self) -> (result: Result<usize, Error>)
        ensures
            result == match self {
                InvokeEndResult::Done(inner) => inner,
                InvokeEndResult::BufferTooShort(_) => Err(Error::BufferTooShort),
                InvokeEndResult::Pending(_) => Err(Error::QueueEmpty),
            },
    {
        match self {
            InvokeEndResult::Done(result) => result,
            InvokeEndResult::BufferTooShort(_) => Err(Error::BufferTooShort),
            InvokeEndResult::Pending(_) => Err(Error::QueueEmpty),
        }
    }
}

} // verus!
