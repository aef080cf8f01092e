use pico::key::{key_from_digits, key_from_hex, HexKeyError};

#[test]
fn key_from_hex_text() {
    assert_eq!(key_from_hex("5521E49A"), Ok(vec![0x55, 0x21, 0xe4, 0x9a]));
    assert_eq!(key_from_hex("00"), Ok(vec![0x00]));
    assert_eq!(
        key_from_hex("0123456789abcdefABCDEF"),
        Ok(vec![0x01, 0x23, 0x45, 0x67, 0x89, 0xab, 0xcd, 0xef, 0xab, 0xcd, 0xef])
    );
}

#[test]
fn key_from_hex_text_in_lower_case() {
    assert_eq!(key_from_hex("5521e49a"), Ok(vec![0x55, 0x21, 0xe4, 0x9a]));
    assert_eq!(key_from_hex("fF"), Ok(vec![0xff]));
}

#[test]
fn key_from_hex_with_an_odd_number_of_digits() {
    assert_eq!(key_from_hex("5"), Err(HexKeyError::OddLength));
    assert_eq!(key_from_hex("552"), Err(HexKeyError::OddLength));
    assert_eq!(key_from_hex("xyz"), Err(HexKeyError::OddLength));
}

#[test]
fn key_from_hex_of_nothing() {
    assert_eq!(key_from_hex(""), Err(HexKeyError::Empty));
}

#[test]
fn key_from_hex_with_a_wrong_character() {
    assert_eq!(
        key_from_hex("55g1"),
        Err(HexKeyError::InvalidHexCharacter { c: 'G', index: 2 })
    );
    assert_eq!(
        key_from_hex("5 21"),
        Err(HexKeyError::InvalidHexCharacter { c: ' ', index: 1 })
    );
    assert_eq!(
        key_from_hex("zz"),
        Err(HexKeyError::InvalidHexCharacter { c: 'Z', index: 0 })
    );
    assert_eq!(
        key_from_hex("00x1y2"),
        Err(HexKeyError::InvalidHexCharacter { c: 'X', index: 2 })
    );
}

#[test]
fn key_from_hex_is_read_after_it_is_brought_to_upper_case() {
    // One letter that becomes two in upper case makes an odd text even.
    assert_eq!(
        key_from_hex("\u{df}"),
        Err(HexKeyError::InvalidHexCharacter { c: 'S', index: 0 })
    );
}

#[test]
fn key_from_digits_reads_bytes() {
    assert_eq!(key_from_digits(b"5521E49A"), Ok(vec![0x55, 0x21, 0xe4, 0x9a]));
    assert_eq!(key_from_digits(b"5521e49a"), Ok(vec![0x55, 0x21, 0xe4, 0x9a]));
    assert_eq!(key_from_digits(b""), Err(HexKeyError::Empty));
    assert_eq!(key_from_digits(b"abc"), Err(HexKeyError::OddLength));
    assert_eq!(
        key_from_digits(b"ab\xffd"),
        Err(HexKeyError::InvalidHexCharacter { c: '\u{ff}', index: 2 })
    );
    assert_eq!(
        key_from_digits(b"a/"),
        Err(HexKeyError::InvalidHexCharacter { c: '/', index: 1 })
    );
    assert_eq!(
        key_from_digits(b":0"),
        Err(HexKeyError::InvalidHexCharacter { c: ':', index: 0 })
    );
    assert_eq!(
        key_from_digits(b"@0"),
        Err(HexKeyError::InvalidHexCharacter { c: '@', index: 0 })
    );
    assert_eq!(
        key_from_digits(b"0`"),
        Err(HexKeyError::InvalidHexCharacter { c: '`', index: 1 })
    );
}

#[test]
fn key_from_digits_agrees_with_the_hex_crate() {
    let key: Vec<u8> = (0..=255u8).collect();
    assert_eq!(key_from_digits(hex::encode(&key).as_bytes()), Ok(key.clone()));
    assert_eq!(key_from_digits(hex::encode_upper(&key).as_bytes()), Ok(key));
}
