//! The shapes that the host's answers share.
//!
//! Every entry point of the host answers with one signed integer. Where it was given a buffer to
//! write into, a value that is not negative is the number of bytes that it wrote there.

use vstd::prelude::*;
use vstd::slice::slice_subrange;
use crate::error::{error_of_code, is_fatal_code, Error};

verus! {

/// Whether `status` can be the answer to a request that came with a buffer of `capacity` bytes:
/// it is none of the fatal codes, and it counts no more bytes than the buffer holds.
pub open spec fn fits_buffer(status: int, capacity: nat) -> bool {
    !is_fatal_code(status) && status <= capacity
}

/// Decides the answer to a request that passed the host an optional string and expects a
/// number back.
pub fn call_string(status: i32) -> (result: Result<u32, Error>)
    requires
        !is_fatal_code(status as int),
    ensures
        match result {
            Ok(n) => status >= 0 && n == status,
            Err(e) => status < 0 && e == error_of_code(status as int),
        },
{
    Error::from_i32(status)
}

/// Decides the answer to a request that passed the host no buffer, so as to learn how long a
/// buffer it needs.
pub fn call_buffer_len(status: isize) -> (result: Result<usize, Error>)
    requires
        !is_fatal_code(status as int),
    ensures
        match result {
            Ok(n) => status >= 0 && n == status,
            Err(e) => status < 0 && e == error_of_code(status as int),
        },
{
    Error::from_isize(status)
}

/// Decides the answer to a request that passed the host `buf` to write into, and returns the
/// part of the buffer that the host wrote.
pub fn call_buffer<'a>(status: isize, buf: &'a [u8]) -> (result: Result<&'a [u8], Error>)
    requires
        fits_buffer(status as int, buf@.len()),
    ensures
        match result {
            Ok(written) => status >= 0 && written@ == buf@.subrange(0, status as int),
            Err(e) => status < 0 && e == error_of_code(status as int),
        },
{
    match Error::from_isize(status) {
        Ok(n) => Ok(slice_subrange(buf, 0, n)),
        Err(e) => Err(e),
    }
}

} // verus!
