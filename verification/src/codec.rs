//! The header of a Pico file, and its layout in bytes.
//!
//! All numbers are big-endian.
//!
//! | Offset | Size       | Field         |
//! |--------|------------|---------------|
//! | 0x00   | 2          | magic number  |
//! | 0x02   | 2          | major version |
//! | 0x04   | 2          | minor version |
//! | 0x06   | 4          | data offset   |
//! | 0x0A   | 16         | content hash  |
//! | 0x1A   | 2          | key length    |
//! | 0x1C   | key length | key bytes     |

use vstd::prelude::*;
use crate::constants::{
    HASH_LEN, HASH_POS, KEYLEN_POS, KEY_MAX, KEY_POS, MAGIC, MAGIC_POS, MAJOR, MAJOR_POS,
    MINOR, MINOR_POS, OFFSET_POS,
};
use crate::errors::{end_of_data, Fault, PicoError, ID_HEADER_SHORT, ID_KEY_SHORT};
use crate::intbytes::{be_bytes_u16, be_bytes_u32, ByteDump};

verus! {

/// The fields that a header records.
pub struct HeaderFields {
    /// Major version of the format that the file was written in.
    pub major: u16,
    /// Minor version of the format that the file was written in.
    pub minor: u16,
    /// Absolute offset of the first data byte.
    pub offset: u32,
    /// Digest of the plain data.
    pub hash: [u8; 16],
    /// The cipher key.
    pub key: Vec<u8>,
}

/// The fields of a header as mathematical values.
pub struct HeaderView {
    pub major: u16,
    pub minor: u16,
    pub offset: u32,
    pub hash: Seq<u8>,
    pub key: Seq<u8>,
}

impl View for HeaderFields {
    type V = HeaderView;

    open spec fn view(&self) -> HeaderView {
        HeaderView {
            major: self.major,
            minor: self.minor,
            offset: self.offset,
            hash: self.hash@,
            key: self.key@,
        }
    }
}

impl HeaderView {
    /// The number of bytes that the header takes, key included.  The
    /// metadata region starts here.
    pub open spec fn length(self) -> int {
        KEY_POS + self.key.len()
    }

    /// Whether the fields can stand in a header: the key is not empty and
    /// its length fits the key length field, the version is one that this
    /// library reads, the data does not start before the header ends, and
    /// the hash has its sixteen bytes.
    pub open spec fn valid(self) -> bool {
        &&& 1 <= self.key.len() <= KEY_MAX
        &&& self.major <= MAJOR
        &&& self.offset >= self.length()
        &&& self.hash.len() == HASH_LEN
    }

    /// The bytes of the header.
    pub open spec fn encoded(self) -> Seq<u8> {
        be_bytes_u16(MAGIC) + be_bytes_u16(self.major) + be_bytes_u16(self.minor) + be_bytes_u32(
            self.offset,
        ) + self.hash + be_bytes_u16(self.key.len() as u16) + self.key
    }
}

impl HeaderFields {
    /// Whether the fields can stand in a header.
    pub fn is_valid(&self) -> (valid: bool)
        ensures
            valid == self@.valid(),
    {
        1 <= self.key.len() && self.key.len() <= KEY_MAX && self.major <= MAJOR
            && self.offset as usize >= KEY_POS + self.key.len()
    }
}

/// The big-endian number in the two bytes at `at`.
pub open spec fn u16_at(bytes: Seq<u8>, at: int) -> u16
    recommends
        0 <= at,
        at + 2 <= bytes.len(),
{
    (bytes[at] as int * 0x100 + bytes[at + 1] as int) as u16
}

/// The big-endian number in the four bytes at `at`.
pub open spec fn u32_at(bytes: Seq<u8>, at: int) -> u32
    recommends
        0 <= at,
        at + 4 <= bytes.len(),
{
    (bytes[at] as int * 0x100_0000 + bytes[at + 1] as int * 0x1_0000 + bytes[at + 2] as int
        * 0x100 + bytes[at + 3] as int) as u32
}

/// What reading a header from the start of `bytes` gives.
///
/// The checks are made in this order, and the first that fails decides:
/// the fixed part must be there; the magic number must match; the major
/// version must not exceed the one this library supports; the key must not
/// be empty; the data must not start before the header ends; and the key
/// must be there.
pub open spec fn decoded(bytes: Seq<u8>) -> Result<HeaderView, Fault> {
    let magic = u16_at(bytes, MAGIC_POS as int);
    let major = u16_at(bytes, MAJOR_POS as int);
    let minor = u16_at(bytes, MINOR_POS as int);
    let offset = u32_at(bytes, OFFSET_POS as int);
    let key_len = u16_at(bytes, KEYLEN_POS as int);
    if bytes.len() < KEY_POS {
        Err(Fault::ReadFailed(ID_HEADER_SHORT))
    } else if magic != MAGIC {
        Err(Fault::NotPico(magic))
    } else if major > MAJOR {
        Err(Fault::BadVersion(major, minor, MAJOR, MINOR))
    } else if key_len == 0 {
        Err(Fault::KeyError)
    } else if offset < KEY_POS + key_len {
        Err(Fault::BadOffset(offset, (KEY_POS + key_len) as u32))
    } else if bytes.len() < KEY_POS + key_len {
        Err(Fault::ReadFailed(ID_KEY_SHORT))
    } else {
        Ok(
            HeaderView {
                major,
                minor,
                offset,
                hash: bytes.subrange(HASH_POS as int, HASH_POS + HASH_LEN),
                key: bytes.subrange(KEY_POS as int, KEY_POS + key_len),
            },
        )
    }
}

/// A header that is read back from its own bytes, whatever follows them,
/// is the header that was written.
pub proof fn lemma_decode_encoded(header: HeaderView, rest: Seq<u8>)
    requires
        header.valid(),
    ensures
        decoded(header.encoded() + rest) == Ok::<HeaderView, Fault>(header),
{
    let bytes = header.encoded() + rest;
    let key_len = header.key.len() as u16;
    assert(bytes.subrange(HASH_POS as int, HASH_POS + HASH_LEN) =~= header.hash);
    assert(bytes.subrange(KEY_POS as int, KEY_POS + key_len) =~= header.key);
}

/// A header that can be read is valid, and written again it gives the
/// bytes that it was read from.
pub proof fn lemma_encode_decoded(bytes: Seq<u8>)
    ensures
        decoded(bytes) matches Ok(header) ==> {
            &&& header.valid()
            &&& header.length() <= bytes.len()
            &&& header.encoded() == bytes.subrange(0, header.length())
        },
{
    if let Ok(header) = decoded(bytes) {
        lemma_u16_bytes(bytes, MAGIC_POS as int);
        lemma_u16_bytes(bytes, MAJOR_POS as int);
        lemma_u16_bytes(bytes, MINOR_POS as int);
        lemma_u32_bytes(bytes, OFFSET_POS as int);
        lemma_u16_bytes(bytes, KEYLEN_POS as int);
    }
}

/// The two bytes at `at` are the big-endian bytes of the number read there.
proof fn lemma_u16_bytes(bytes: Seq<u8>, at: int)
    requires
        0 <= at,
        at + 2 <= bytes.len(),
    ensures
        be_bytes_u16(u16_at(bytes, at)) == bytes.subrange(at, at + 2),
{
}

/// The four bytes at `at` are the big-endian bytes of the number read there.
proof fn lemma_u32_bytes(bytes: Seq<u8>, at: int)
    requires
        0 <= at,
        at + 4 <= bytes.len(),
    ensures
        be_bytes_u32(u32_at(bytes, at)) == bytes.subrange(at, at + 4),
{
    let a: u8 = bytes[at];
    let b: u8 = bytes[at + 1];
    let c: u8 = bytes[at + 2];
    let d: u8 = bytes[at + 3];
    let value: u32 = u32_at(bytes, at);
    assert((value / 0x100_0000) as u8 == a && (value / 0x1_0000 % 0x100) as u8 == b && (value
        / 0x100 % 0x100) as u8 == c && (value % 0x100) as u8 == d) by (bit_vector)
        requires
            value == a * 0x100_0000 + b * 0x1_0000 + c * 0x100 + d,
    ;
}

/// A header whose magic number and version pass, whose key is not empty,
/// and whose data offset lies before the end of header and key is refused
/// as a bad offset, with the offset found and the least one allowed.
pub proof fn lemma_offset_validation(bytes: Seq<u8>)
    requires
        bytes.len() >= KEY_POS,
        u16_at(bytes, MAGIC_POS as int) == MAGIC,
        u16_at(bytes, MAJOR_POS as int) <= MAJOR,
        u16_at(bytes, KEYLEN_POS as int) != 0,
        u32_at(bytes, OFFSET_POS as int) < KEY_POS + u16_at(bytes, KEYLEN_POS as int),
    ensures
        decoded(bytes) == Err::<HeaderView, Fault>(
            Fault::BadOffset(
                u32_at(bytes, OFFSET_POS as int),
                (KEY_POS + u16_at(bytes, KEYLEN_POS as int)) as u32,
            ),
        ),
{
}

/// A header whose magic number passes and whose major version exceeds the
/// supported one is refused as an unsupported version, with the version
/// found and the version supported.
pub proof fn lemma_version_gate(bytes: Seq<u8>)
    requires
        bytes.len() >= KEY_POS,
        u16_at(bytes, MAGIC_POS as int) == MAGIC,
        u16_at(bytes, MAJOR_POS as int) > MAJOR,
    ensures
        decoded(bytes) == Err::<HeaderView, Fault>(
            Fault::BadVersion(
                u16_at(bytes, MAJOR_POS as int),
                u16_at(bytes, MINOR_POS as int),
                MAJOR,
                MINOR,
            ),
        ),
{
}

/// Append `data` to `target`.
pub(crate) fn append(target: &mut Vec<u8>, data: &[u8])
    ensures
        final(target)@ == old(target)@ + data@,
{
    let mut index: usize = 0;
    while index < data.len()
        invariant
            index <= data@.len(),
            target@ == old(target)@ + data@.take(index as int),
        decreases data@.len() - index,
    {
        target.push(data[index]);
        index = index + 1;
    }
}

/// Read the big-endian number in the two bytes at `at`.
fn read_u16(bytes: &[u8], at: usize) -> (value: u16)
    requires
        at + 2 <= bytes@.len(),
    ensures
        value == u16_at(bytes@, at as int),
{
    (bytes[at] as u16) * 0x100 + (bytes[at + 1] as u16)
}

/// Read the big-endian number in the four bytes at `at`.
fn read_u32(bytes: &[u8], at: usize) -> (value: u32)
    requires
        at + 4 <= bytes@.len(),
    ensures
        value == u32_at(bytes@, at as int),
{
    (bytes[at] as u32) * 0x100_0000 + (bytes[at + 1] as u32) * 0x1_0000 + (bytes[at + 2] as u32)
        * 0x100 + (bytes[at + 3] as u32)
}

/// Write the header for `fields`: the fixed part, then the key.
///
/// The result has `KEY_POS + key.len()` bytes.  Writing never fails for
/// valid fields.
pub fn encode_header(fields: &HeaderFields) -> (bytes: Vec<u8>)
    requires
        fields@.valid(),
    ensures
        bytes@ == fields@.encoded(),
        bytes@.len() == fields@.length(),
{
    let mut bytes: Vec<u8> = Vec::new();
    append(&mut bytes, &MAGIC.get_bytes());
    append(&mut bytes, &fields.major.get_bytes());
    append(&mut bytes, &fields.minor.get_bytes());
    append(&mut bytes, &fields.offset.get_bytes());
    append(&mut bytes, fields.hash.as_slice());
    let key_len: u16 = fields.key.len() as u16;
    append(&mut bytes, &key_len.get_bytes());
    append(&mut bytes, fields.key.as_slice());
    bytes
}

/// Read a header from the start of `bytes`.
///
/// Fails with `ReadFailed` where `bytes` ends before the header does, with
/// `NotPico` on a wrong magic number, with `BadVersion` on a major version
/// beyond the supported one, with `KeyError` on an empty key, and with
/// `BadOffset` where the data would start before the header ends.
pub fn decode_header(bytes: &[u8]) -> (result: Result<HeaderFields, PicoError>)
    ensures
        match decoded(bytes@) {
            Ok(header) => result matches Ok(fields) && fields@ == header,
            Err(fault) => result matches Err(error) && error@ == fault,
        },
{
    if bytes.len() < KEY_POS {
        return Err(PicoError::ReadFailed(ID_HEADER_SHORT, end_of_data()));
    }
    let magic: u16 = read_u16(bytes, MAGIC_POS);
    if magic != MAGIC {
        return Err(PicoError::NotPico(magic));
    }
    let major: u16 = read_u16(bytes, MAJOR_POS);
    let minor: u16 = read_u16(bytes, MINOR_POS);
    if major > MAJOR {
        return Err(PicoError::BadVersion(major, minor, MAJOR, MINOR));
    }
    let offset: u32 = read_u32(bytes, OFFSET_POS);
    let key_len: u16 = read_u16(bytes, KEYLEN_POS);
    if key_len == 0 {
        return Err(PicoError::KeyError);
    }
    let least: u32 = KEY_POS as u32 + key_len as u32;
    if offset < least {
        return Err(PicoError::BadOffset(offset, least));
    }
    let key_end: usize = KEY_POS + key_len as usize;
    if bytes.len() < key_end {
        return Err(PicoError::ReadFailed(ID_KEY_SHORT, end_of_data()));
    }
    let mut hash: [u8; 16] = [0u8; 16];
    let mut index: usize = 0;
    while index < HASH_LEN
        invariant
            index <= HASH_LEN,
            bytes@.len() >= KEY_POS,
            forall|i: int| 0 <= i < index ==> hash@[i] == bytes@[HASH_POS + i],
        decreases HASH_LEN - index,
    {
        hash[index] = bytes[HASH_POS + index];
        index = index + 1;
    }
    let mut key: Vec<u8> = Vec::new();
    append(&mut key, vstd::slice::slice_subrange(bytes, KEY_POS, key_end));
    assert(hash@ =~= bytes@.subrange(HASH_POS as int, HASH_POS + HASH_LEN));
    Ok(HeaderFields { major, minor, offset, hash, key })
}

} // verus!
