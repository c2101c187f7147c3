//! The closed set of errors that the host can report, and the decoding of its status codes.

use vstd::prelude::*;

verus! {

/// The errors that a system call can return.
#[derive(Clone, Copy, Debug, PartialEq, Eq, Hash, Structural)]
pub enum Error {
    /// A CBOR data item is invalid CBOR or encodes an unsupported type or value.
    CborDecode,
    /// A buffer provided for the syscall to write into is too short.
    BufferTooShort,
    /// A component UUID refers to a component that does not exist or cannot be accessed.
    NoSuchComponent,
    /// A method invocation refers to a method that does not exist.
    NoSuchMethod,
    /// The parameters are incorrect in a way that does not have a more specific error code.
    BadParameters,
    /// A queue is full.
    QueueFull,
    /// A queue is empty.
    QueueEmpty,
    /// A descriptor is negative or not open.
    BadDescriptor,
    /// There are too many open descriptors.
    TooManyDescriptors,
    /// The operation failed for an otherwise unspecified reason.
    Other,
    /// A system call returned an error code that does not correspond to any known value.
    Unknown,
}

/// The status code with which the host reports an invalid memory region.
pub const MEMORY_FAULT: isize = -1;

/// The status code with which the host reports text that is not valid UTF-8.
pub const STRING_DECODE: isize = -3;

/// Whether `code` is one of the two status codes that the calling convention rules out: the
/// layer only ever hands the host valid memory regions and valid text.
pub open spec fn is_fatal_code(code: int) -> bool {
    code == MEMORY_FAULT as int || code == STRING_DECODE as int
}

/// The error that a negative, non-fatal status code stands for.
pub open spec fn error_of_code(code: int) -> Error
    recommends
        code < 0,
        !is_fatal_code(code),
{
    if code == -2 {
        Error::CborDecode
    } else if code == -4 {
        Error::BufferTooShort
    } else if code == -5 {
        Error::NoSuchComponent
    } else if code == -6 {
        Error::NoSuchMethod
    } else if code == -7 {
        Error::BadParameters
    } else if code == -8 {
        Error::QueueFull
    } else if code == -9 {
        Error::QueueEmpty
    } else if code == -10 {
        Error::BadDescriptor
    } else if code == -11 {
        Error::TooManyDescriptors
    } else if code == -12 {
        Error::Other
    } else {
        Error::Unknown
    }
}

/// The status code with which the host reports an error. The placeholder for codes that this
/// layer does not know stands for no code of its own: it is given one beyond those in use.
pub open spec fn code_of_error(error: Error) -> int {
    match error {
        Error::CborDecode => -2,
        Error::BufferTooShort => -4,
        Error::NoSuchComponent => -5,
        Error::NoSuchMethod => -6,
        Error::BadParameters => -7,
        Error::QueueFull => -8,
        Error::QueueEmpty => -9,
        Error::BadDescriptor => -10,
        Error::TooManyDescriptors => -11,
        Error::Other => -12,
        Error::Unknown => -13,
    }
}

/// Every error is what its own status code decodes to, and no error has a fatal code.
pub proof fn lemma_code_round_trip(error: Error)
    ensures
        code_of_error(error) < 0,
        !is_fatal_code(code_of_error(error)),
        error_of_code(code_of_error(error)) == error,
{
}

/// What a status code means: a count or handle value when it is not negative, an error when it
/// is.
pub open spec fn decode_status(code: int) -> Result<nat, Error>
    recommends
        !is_fatal_code(code),
{
    if code >= 0 {
        Ok(code as nat)
    } else {
        Err(error_of_code(code))
    }
}

impl Error {
    /// The text that describes each error.
    pub open spec fn description(self) -> Seq<char> {
        match self {
            Error::CborDecode => "CBOR decode error"@,
            Error::BufferTooShort => "Buffer too short"@,
            Error::NoSuchComponent => "No such component"@,
            Error::NoSuchMethod => "No such method"@,
            Error::BadParameters => "Bad parameters"@,
            Error::QueueFull => "Queue full"@,
            Error::QueueEmpty => "Queue empty"@,
            Error::BadDescriptor => "Bad descriptor"@,
            Error::TooManyDescriptors => "Too many descriptors"@,
            Error::Other => "Other error"@,
            Error::Unknown => "Unknown error"@,
        }
    }

    /// Returns a string describing the error.
    #[must_use]
    pub fn as_str(self) -> (text: &'static str)
        ensures
            text@ == self.description(),
    {
        match self {
            Error::CborDecode => "CBOR decode error",
            Error::BufferTooShort => "Buffer too short",
            Error::NoSuchComponent => "No such component",
            Error::NoSuchMethod => "No such method",
            Error::BadParameters => "Bad parameters",
            Error::QueueFull => "Queue full",
            Error::QueueEmpty => "Queue empty",
            Error::BadDescriptor => "Bad descriptor",
            Error::TooManyDescriptors => "Too many descriptors",
            Error::Other => "Other error",
            Error::Unknown => "Unknown error",
        }
    }

    /// Whether a status code is one of the two that cannot occur. A caller that gets `true`
    /// faces a broken host and must stop, not go on to decode the code.
    pub fn is_fatal(value: isize) -> (fatal: bool)
        ensures
            fatal == is_fatal_code(value as int),
    {
        value == MEMORY_FAULT || value == STRING_DECODE
    }

    /// Checks a system call return value of type `isize` for an error value.
    ///
    /// The value itself comes back if it is not negative, and the error that it stands for if it
    /// is. The two fatal codes are no input of this function.
    pub fn from_isize(value: isize) -> (result: Result<usize, Error>)
        requires
            !is_fatal_code(value as int),
        ensures
            decode_status(value as int) == match result {
                Ok(n) => Ok::<nat, Error>(n as nat),
                Err(e) => Err::<nat, Error>(e),
            },
    {
        if value >= 0 {
            Ok(value as usize)
        } else if value == -2 {
            Err(Error::CborDecode)
        } else if value == -4 {
            Err(Error::BufferTooShort)
        } else if value == -5 {
            Err(Error::NoSuchComponent)
        } else if value == -6 {
            Err(Error::NoSuchMethod)
        } else if value == -7 {
            Err(Error::BadParameters)
        } else if value == -8 {
            Err(Error::QueueFull)
        } else if value == -9 {
            Err(Error::QueueEmpty)
        } else if value == -10 {
            Err(Error::BadDescriptor)
        } else if value == -11 {
            Err(Error::TooManyDescriptors)
        } else if value == -12 {
            Err(Error::Other)
        } else {
            Err(Error::Unknown)
        }
    }

    /// Checks a system call return value of type `i32` for an error value.
    ///
    /// The value itself comes back if it is not negative, and the error that it stands for if it
    /// is. The two fatal codes are no input of this function.
    pub fn from_i32(value: i32) -> (result: Result<u32, Error>)
        requires
            !is_fatal_code(value as int),
        ensures
            decode_status(value as int) == match result {
                Ok(n) => Ok::<nat, Error>(n as nat),
                Err(e) => Err::<nat, Error>(e),
            },
    {
        if value >= 0 {
            Ok(value as u32)
        } else {
            match Error::from_isize(value as isize) {
                Ok(_) => Err(Error::Unknown),
                Err(e) => Err(e),
            }
        }
    }
}

} // verus!
