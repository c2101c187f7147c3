//! The computer itself: its signal queue, its access control list and its beeper.

use vstd::prelude::*;
use crate::error::{error_of_code, is_fatal_code, Error};
use crate::helpers::{call_buffer, call_string, fits_buffer};

verus! {

/// Decides whether a signal was pushed to the signal queue. The error is
/// [`Error::CborDecode`] if the signal is no valid CBOR, and [`Error::QueueFull`] if the queue
/// has no room for it.
pub fn push_signal(status: i32) -> (result: Result<(), Error>)
    requires
        !is_fatal_code(status as int),
    ensures
        match result {
            Ok(()) => status >= 0,
            Err(e) => status < 0 && e == error_of_code(status as int),
        },
{
    match Error::from_i32(status) {
        Ok(_) => Ok(()),
        Err(e) => Err(e),
    }
}

/// Returns the length, in bytes, of the next signal in the signal queue, or `None` if the queue
/// is empty. The host has no reason to refuse, so a negative status is no input.
#[must_use]
pub fn pull_signal_length(status: isize) -> (len: Option<usize>)
    requires
        status >= 0,
    ensures
        status == 0 <==> len.is_none(),
        len matches Some(n) ==> n == status,
{
    if status == 0 {
        None
    } else {
        Some(status as usize)
    }
}

/// Pops a signal from the signal queue.
///
/// If a signal was pending, the host has written it to `buffer` and removed it from the queue:
/// the part of the buffer that holds it is returned. If none was pending, the host has answered
/// 0 and `None` is returned. If the buffer could not hold the signal, the error is
/// [`Error::BufferTooShort`] and the signal remains in the queue.
pub fn pull_signal<'a>(status: isize, buffer: &'a [u8]) -> (result: Result<
    Option<&'a [u8]>,
    Error,
>)
    requires
        fits_buffer(status as int, buffer@.len()),
    ensures
        match result {
            Ok(None) => status == 0,
            Ok(Some(signal)) => status > 0 && signal@ == buffer@.subrange(0, status as int),
            Err(e) => status < 0 && e == error_of_code(status as int),
        },
{
    match call_buffer(status, buffer) {
        Ok(signal) => {
            if status == 0 {
                Ok(None)
            } else {
                Ok(Some(signal))
            }
        },
        Err(e) => Err(e),
    }
}

/// Returns the length, in bytes, of the name of the next user in the access control list, or
/// `None` if there is no next user. The host has no reason to refuse, so a negative status is no
/// input.
#[must_use]
pub fn acl_next_len(status: isize) -> (len: Option<usize>)
    requires
        status >= 0,
    ensures
        status == 0 <==> len.is_none(),
        len matches Some(n) ==> n == status,
{
    if status == 0 {
        None
    } else {
        Some(status as usize)
    }
}

/// Returns the name of the next user in the access control list.
///
/// If there was a next user, the host has written the name to `buffer` and moved on: the part
/// of the buffer that holds the name is returned. If there was none, the host has answered 0 and
/// `None` is returned. If the buffer could not hold the name, the error is
/// [`Error::BufferTooShort`] and the iteration has not moved on.
pub fn acl_next<'a>(status: isize, buffer: &'a [u8]) -> (result: Result<Option<&'a [u8]>, Error>)
    requires
        fits_buffer(status as int, buffer@.len()),
    ensures
        match result {
            Ok(None) => status == 0,
            Ok(Some(name)) => status > 0 && name@ == buffer@.subrange(0, status as int),
            Err(e) => status < 0 && e == error_of_code(status as int),
        },
{
    match call_buffer(status, buffer) {
        Ok(name) => {
            if status == 0 {
                Ok(None)
            } else {
                Ok(Some(name))
            }
        },
        Err(e) => Err(e),
    }
}

/// Decides whether a user was granted access to the computer. The error is [`Error::Other`] if
/// adding the user failed.
pub fn add_user(status: i32) -> (result: Result<(), Error>)
    requires
        !is_fatal_code(status as int),
    ensures
        match result {
            Ok(()) => status >= 0,
            Err(e) => status < 0 && e == error_of_code(status as int),
        },
{
    match call_string(status) {
        Ok(_) => Ok(()),
        Err(e) => Err(e),
    }
}

/// Decides whether a user's access to the computer was revoked. The error is [`Error::Other`]
/// if the user is not on the access control list.
pub fn remove_user(status: i32) -> (result: Result<(), Error>)
    requires
        !is_fatal_code(status as int),
    ensures
        match result {
            Ok(()) => status >= 0,
            Err(e) => status < 0 && e == error_of_code(status as int),
        },
{
    match call_string(status) {
        Ok(_) => Ok(()),
        Err(e) => Err(e),
    }
}

/// The largest frequency or duration of a beep.
pub const BEEP_MAX: u16 = 32767;

/// A number that can be used as the frequency or duration of a single-tone beep: one between 1
/// and 32,767.
#[derive(Clone, Copy, Debug, PartialEq, Eq, PartialOrd, Ord, Hash, Structural)]
pub struct BeepParameter {
    value: u16,
}

impl View for BeepParameter {
    type V = u16;

    closed spec fn view(&self) -> u16 {
        self.value
    }
}

impl BeepParameter {
    /// Whether the value is in the range that the beeper takes. Every value that
    /// [`new`](BeepParameter::new) hands out is.
    pub open spec fn in_range(&self) -> bool {
        1 <= self@ <= BEEP_MAX
    }

    /// Creates a `BeepParameter` if the provided value is between 1 and 32,767.
    #[must_use]
    pub fn new(value: u16) -> (parameter: Option<BeepParameter>)
        ensures
            parameter.is_some() <==> 1 <= value <= BEEP_MAX,
            parameter matches Some(p) ==> p@ == value && p.in_range(),
    {
        if value != 0 && value <= BEEP_MAX {
            Some(BeepParameter { value })
        } else {
            None
        }
    }

    /// Returns the contained value.
    #[must_use]
    pub fn get(self) -> (value: u16)
        ensures
            value == self@,
    {
        self.value
    }
}

impl vstd::std_specs::convert::FromSpecImpl<BeepParameter> for u16 {
    open spec fn obeys_from_spec() -> bool {
        true
    }

    open spec fn from_spec(value: BeepParameter) -> u16 {
        value@
    }
}

impl From<BeepParameter> for u16 {
    fn from(value: BeepParameter) -> (number: u16) {
        value.value
    }
}

impl vstd::std_specs::convert::FromSpecImpl<BeepParameter> for u32 {
    open spec fn obeys_from_spec() -> bool {
        true
    }

    open spec fn from_spec(value: BeepParameter) -> u32 {
        value@ as u32
    }
}

impl From<BeepParameter> for u32 {
    fn from(value: BeepParameter) -> (number: u32) {
        value.value as u32
    }
}

} // verus!
