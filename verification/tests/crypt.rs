use pico::crypt::crypt;

#[test]
fn crypt_test_1() {
    let key = vec![0u8];
    let mut data = [18u8, 21u8];
    crypt(0, &mut data, &key);
    assert_eq!(data, [18u8, 21u8]);
}

#[test]
fn crypt_test_2() {
    let key = vec![0u8];
    let mut data: [u8; 0] = [];
    crypt(0, &mut data, &key);
    assert_eq!(data, []);
}

#[test]
fn crypt_test_3() {
    let key = vec![0x40u8, 0x09u8];
    let mut data = [0x09u8, 0x20u8, 0x00u8, 0xe0u8];
    crypt(0, &mut data, &key);
    assert_eq!(data, [0x49u8, 0x29u8, 0x40u8, 0xe9u8]);
}

#[test]
fn crypt_test_4() {
    let key = vec![0xaau8, 0x55u8, 0x63u8, 0xf7u8, 0x7eu8];
    let mut data = [0x9au8, 0xd4u8, 0x6cu8, 0x58u8];
    crypt(0, &mut data, &key);
    assert_eq!(data, [0x30u8, 0x81u8, 0x0fu8, 0xafu8]);
}

#[test]
fn crypt_position_selects_the_key_byte() {
    let key = vec![0x40u8, 0x09u8];
    let mut data = [0x09u8, 0x20u8, 0x00u8, 0xe0u8];
    crypt(1, &mut data, &key);
    assert_eq!(data, [0x09u8 ^ 0x09, 0x20 ^ 0x40, 0x00 ^ 0x09, 0xe0 ^ 0x40]);
    assert_eq!(data, [0x00u8, 0x60u8, 0x09u8, 0xa0u8]);
}

#[test]
fn crypt_keystream_wraps_at_the_key_length() {
    let key = vec![0x01u8, 0x02u8, 0x04u8];
    let mut data = [0u8; 7];
    crypt(0, &mut data, &key);
    assert_eq!(data, [0x01u8, 0x02, 0x04, 0x01, 0x02, 0x04, 0x01]);
    let mut later = [0u8; 4];
    crypt(5, &mut later, &key);
    assert_eq!(later, [0x04u8, 0x01, 0x02, 0x04]);
}

#[test]
fn crypt_twice_restores_the_data() {
    let key = vec![0x55u8, 0x21u8, 0xe4u8, 0x9au8];
    for position in [0usize, 1, 2, 3, 4, 5, 1000, 4095, 4096, 65537] {
        let plain: Vec<u8> = (0..=255u8).collect();
        let mut data = plain.clone();
        crypt(position, &mut data, &key);
        assert_ne!(data, plain);
        crypt(position, &mut data, &key);
        assert_eq!(data, plain);
    }
}

#[test]
fn crypt_of_pieces_is_crypt_of_the_whole() {
    let key = vec![0xaau8, 0x55u8, 0x63u8];
    let plain: Vec<u8> = (0..100u8).collect();
    let mut whole = plain.clone();
    crypt(7, &mut whole, &key);
    let mut pieces = plain.clone();
    let (first, second) = pieces.split_at_mut(41);
    crypt(7, first, &key);
    crypt(7 + 41, second, &key);
    assert_eq!(pieces, whole);
}

#[test]
fn crypt_at_a_position_near_the_largest() {
    let key = vec![0x01u8, 0x02u8, 0x04u8];
    let position = usize::MAX;
    let mut data = [0u8; 3];
    crypt(position, &mut data, &key);
    let first = (position % 3) as usize;
    assert_eq!(data[0], key[first]);
    assert_eq!(data[1], key[(first + 1) % 3]);
    assert_eq!(data[2], key[(first + 2) % 3]);
}
