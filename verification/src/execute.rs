//! Loading another program into the execution buffer.

use vstd::prelude::*;
use crate::error::{error_of_code, is_fatal_code, Error};

verus! {

/// Decides whether data was written to the execution buffer. The error is [`Error::Other`] if
/// the data would have made the contents of the buffer larger than the computer's installed
/// RAM.
pub fn add(status: i32) -> (result: Result<(), Error>)
    requires
        !is_fatal_code(status as int),
    ensures
        match result {
            Ok(()) => status >= 0,
            Err(e) => status < 0 && e == error_of_code(status as int),
        },
{
    match Error::from_i32(status) {
        Ok(_) => Ok(()),
        Err(e) => Err(e),
    }
}

} // verus!
