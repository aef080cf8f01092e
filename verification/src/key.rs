//! Keys written as hexadecimal text.

use vstd::prelude::*;
use vstd::string::*;
use crate::text::{to_uppercase, uppercase};

verus! {

/// Why a text is not the hexadecimal form of a key.
#[derive(Debug, Clone, Copy, PartialEq, Eq)]
pub enum HexKeyError {
    /// The text has an odd number of digits.
    OddLength,
    /// The text is empty, and a key cannot be.
    Empty,
    /// The text holds something other than a hexadecimal digit: the first
    /// such character, and where it stands.
    InvalidHexCharacter { c: char, index: usize },
    /// The text does not have the length that the place for its bytes
    /// asks for.
    InvalidStringLength,
}

/// Whether `code` is the ASCII code of a hexadecimal digit, of either case.
pub open spec fn is_hex_code(code: u8) -> bool {
    0x30 <= code <= 0x39 || 0x41 <= code <= 0x46 || 0x61 <= code <= 0x66
}

/// The value of the hexadecimal digit with ASCII code `code`.
pub open spec fn hex_code_value(code: u8) -> int
    recommends
        is_hex_code(code),
{
    if code <= 0x39 {
        code - 0x30
    } else if code <= 0x46 {
        code - 0x41 + 10
    } else {
        code - 0x61 + 10
    }
}

/// Whether every byte up to `end` is the code of a hexadecimal digit.
pub open spec fn all_hex_codes(digits: Seq<u8>, end: int) -> bool {
    forall|i: int| 0 <= i < end ==> is_hex_code(#[trigger] digits[i])
}

/// The bytes that an even run of hexadecimal digits stands for, two digits
/// to the byte, the high one first.
pub open spec fn hex_bytes(digits: Seq<u8>) -> Seq<u8> {
    Seq::new(
        digits.len() / 2,
        |i: int| (hex_code_value(digits[2 * i]) * 16 + hex_code_value(digits[2 * i + 1])) as u8,
    )
}

/// What `hex::FromHex::from_hex` gives for a `Vec<u8>`.
///
/// A text of odd length is refused as such.  Otherwise the digits are
/// taken in order, and the first byte that is no hexadecimal digit is
/// reported with its index; where there is none, the bytes that the digits
/// stand for are returned.  The crate's error is handed over variant by
/// variant.
#[verifier::external_body]
fn from_hex(digits: &[u8]) -> (result: Result<Vec<u8>, HexKeyError>)
    ensures
        match result {
            Ok(bytes) => {
                &&& digits@.len() % 2 == 0
                &&& all_hex_codes(digits@, digits@.len() as int)
                &&& bytes@ == hex_bytes(digits@)
            },
            Err(HexKeyError::OddLength) => digits@.len() % 2 == 1,
            Err(HexKeyError::InvalidHexCharacter { c, index }) => {
                &&& digits@.len() % 2 == 0
                &&& index < digits@.len()
                &&& all_hex_codes(digits@, index as int)
                &&& !is_hex_code(digits@[index as int])
                &&& c == digits@[index as int] as char
            },
            Err(_) => false,
        },
{
    match <Vec<u8> as hex::FromHex>::from_hex(digits) {
        Ok(bytes) => Ok(bytes),
        Err(hex::FromHexError::InvalidHexCharacter { c, index }) => Err(
            HexKeyError::InvalidHexCharacter { c, index },
        ),
        Err(hex::FromHexError::OddLength) => Err(HexKeyError::OddLength),
        Err(hex::FromHexError::InvalidStringLength) => Err(HexKeyError::InvalidStringLength),
    }
}

/// What reading a key from `digits` gives.
///
/// An odd number of digits is refused first, then an empty text, then the
/// first byte that is no hexadecimal digit.
pub open spec fn key_of_digits(digits: Seq<u8>) -> Result<Seq<u8>, HexKeyError> {
    if digits.len() % 2 == 1 {
        Err(HexKeyError::OddLength)
    } else if digits.len() == 0 {
        Err(HexKeyError::Empty)
    } else if all_hex_codes(digits, digits.len() as int) {
        Ok(hex_bytes(digits))
    } else {
        let index = choose|index: int|
            0 <= index < digits.len() && all_hex_codes(digits, index) && !is_hex_code(
                digits[index],
            );
        Err(HexKeyError::InvalidHexCharacter { c: digits[index] as char, index: index as usize })
    }
}

/// Read a key from hexadecimal digits given as bytes.
///
/// Two digits give one byte of the key.  The key of an accepted text has
/// at least one byte.
pub fn key_from_digits(digits: &[u8]) -> (result: Result<Vec<u8>, HexKeyError>)
    ensures
        match key_of_digits(digits@) {
            Ok(key) => result matches Ok(bytes) && bytes@ == key && key.len() >= 1,
            Err(error) => result == Err::<Vec<u8>, HexKeyError>(error),
        },
{
    if digits.len() % 2 != 0 {
        return Err(HexKeyError::OddLength);
    }
    if digits.len() == 0 {
        return Err(HexKeyError::Empty);
    }
    from_hex(digits)
}

/// Read a key from hexadecimal text.
///
/// The text is brought to upper case first; its bytes are then read as
/// `key_from_digits` reads them.
pub fn key_from_hex(text: &str) -> (result: Result<Vec<u8>, HexKeyError>)
    ensures
        match key_of_digits(vstd::utf8::encode_utf8(uppercase(text@))) {
            Ok(key) => result matches Ok(bytes) && bytes@ == key && key.len() >= 1,
            Err(error) => result == Err::<Vec<u8>, HexKeyError>(error),
        },
{
    let upper = to_uppercase(text);
    key_from_digits(upper.as_str().as_bytes())
}

} // verus!
