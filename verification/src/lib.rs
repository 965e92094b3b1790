//! Short, sortable, globally-unique identifiers that embed their creation
//! time and the logical site that minted them.
//!
//! An identifier is 26 characters: 18 binary bytes (a 48-bit timestamp with
//! a fixed marker bit, an 8-byte process tag, a 32-bit sequence counter)
//! rendered through a custom 64-symbol alphabet as 24 characters, followed
//! by a 2-character site tag.

use vstd::prelude::*;

pub mod codec;
pub mod generator;
pub mod layout;
pub mod parse;
pub mod props;

pub use generator::IdGenerator;
pub use parse::is_object_id;
pub use parse::parse_idc;
pub use parse::parse_time;


verus! {

/// Why an operation of this library failed.
#[derive(Clone, Copy, Debug, PartialEq, Eq, Structural)]
pub enum IdError {
    /// A supplied site tag is not two characters of `[-_0-9A-Za-z]`.
    InvalidSiteTag,
    /// The host's network name could not be read at initialization.
    HostUnavailable,
    /// The operating system's random source could not be read at
    /// initialization.
    RandomUnavailable,
    /// A string handed to the parser is not exactly 26 characters long.
    WrongLength,
    /// The first 24 characters of a 26-character string are not all symbols
    /// of the identifier alphabet.
    InvalidEncoding,
}

/// A point in time, as whole milliseconds since the Unix epoch.
#[derive(Clone, Copy, Debug, PartialEq, Eq, Structural)]
pub struct Timestamp {
    pub millis: u64,
}

} // verus!
