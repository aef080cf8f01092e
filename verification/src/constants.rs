//! Important constants for use in the library.

use vstd::prelude::*;

verus! {

/// Pico file magic number.
pub const MAGIC: u16 = 0x91c0;

/// Major version number of supported Pico format.
pub const MAJOR: u16 = 1;

/// Minor version number of supported Pico format.
pub const MINOR: u16 = 0;

//
// Field sizes in bytes.
//
/// Size (in bytes) of the magic number.
pub const MAGIC_LEN: usize = 2;

/// Size (in bytes) of the major version number.
pub const MAJOR_LEN: usize = 2;

/// Size (in bytes) of the minor version number.
pub const MINOR_LEN: usize = 2;

/// Size (in bytes) of the data offset.
pub const OFFSET_LEN: usize = 4;

/// Size (in bytes) of the hash.
pub const HASH_LEN: usize = 16;

/// Size (in bytes) of the key length.
pub const KEYLEN_LEN: usize = 2;

//
// Field offsets from start of file.
//
/// Zero-based offset to magic number.
pub const MAGIC_POS: usize = 0;

/// Zero-based offset to major version number.
pub const MAJOR_POS: usize = 2;

/// Zero-based offset to minor version number.
pub const MINOR_POS: usize = 4;

/// Zero-based offset to the offset.
pub const OFFSET_POS: usize = 6;

/// Zero-based offset to the hash.
pub const HASH_POS: usize = 10;

/// Zero-based offset to the key length.
pub const KEYLEN_POS: usize = 26;

/// Zero-based offset to the key.
pub const KEY_POS: usize = 28;

/// Longest key that the two-byte key length field can record.
pub const KEY_MAX: usize = 0xFFFF;

/// Desired chunk size to read and write.
pub const CHUNK_SIZE: usize = 4096;

} // verus!
