//! A safety layer between guest code and a host that hands out opaque resources through integer
//! descriptors and reports the outcome of every request as a signed integer.
//!
//! The modules model the host's status codes, the three views of a descriptor, the take-once
//! capability tokens, the listing cursors and the two-phase method call protocol. Every
//! function carries a contract that the verifier checks.

pub mod address;
pub mod cbor;
pub mod component;
pub mod computer;
pub mod descriptor;
pub mod error;
pub mod execute;
pub mod extref;
pub mod helpers;
pub mod host;
pub mod token;

pub use address::Address;
