//! Rust library for Pico encoding.
//!
//! This is a library implementing the Pico file encoding used for storing
//! malware.  A Pico file holds a byte stream under a repeating-key xor,
//! next to an unencrypted metadata slot and a digest of the plain data,
//! behind a small fixed header.

use vstd::prelude::*;

pub mod codec;
pub mod constants;
pub mod crypt;
pub mod driver;
pub mod errors;
pub mod file;
pub mod hash;
pub mod header;
pub mod intbytes;
pub mod key;
pub mod pico;
pub mod store;
pub mod text;

pub use crate::header::HeaderFormat;
pub use crate::pico::Pico;

verus! {

/// Obtain the Pico magic number.  The "magic number" used at the start of a
/// file to indicate that it is a Pico-encoded file.
pub fn magic() -> (m: u16)
    ensures
        m == constants::MAGIC,
{
    constants::MAGIC
}

/// Obtain the major version number for the encoding implemented by this
/// library.  See also `minor`.
pub fn major() -> (m: u16)
    ensures
        m == constants::MAJOR,
{
    constants::MAJOR
}

/// Obtain the minor version number for the encoding implemented by this
/// library.  See also `major`.
pub fn minor() -> (m: u16)
    ensures
        m == constants::MINOR,
{
    constants::MINOR
}

} // verus!
