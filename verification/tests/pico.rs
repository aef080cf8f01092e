use pico::errors::{
    PicoError, ID_GET_SEEK, ID_HEADER_SHORT, ID_KEY_LONG, ID_OFFSET_LARGE, ID_PUT_SEEK,
};
use pico::store::ByteStore;
use pico::{HeaderFormat, Pico};

const KEY: [u8; 4] = [0x55, 0x21, 0xe4, 0x9a];
const EMPTY_DIGEST: [u8; 16] = [
    0xd4, 0x1d, 0x8c, 0xd9, 0x8f, 0x00, 0xb2, 0x04, 0xe9, 0x80, 0x09, 0x98, 0xec, 0xf8, 0x42, 0x7e,
];

fn fresh(reserve: u32) -> Pico {
    Pico::new(ByteStore::new(), KEY.to_vec(), reserve).unwrap()
}

fn header_with_zero_hash() -> Vec<u8> {
    let mut bytes = vec![0x91, 0xc0, 0x00, 0x01, 0x00, 0x00, 0x00, 0x00, 0x00, 0x2a];
    bytes.extend_from_slice(&[0u8; 16]);
    bytes.extend_from_slice(&[0x00, 0x04, 0x55, 0x21, 0xe4, 0x9a]);
    bytes
}

#[test]
fn new_writes_the_header_at_once() {
    let pico = fresh(10);
    assert_eq!(pico.store().as_bytes(), &header_with_zero_hash()[..]);
}

#[test]
fn new_sets_the_fields() {
    let pico = fresh(10);
    assert_eq!(pico.version(), (1, 0));
    assert_eq!(pico.offset(), 28 + 4 + 10);
    assert_eq!(pico.metadata_length(), 10);
    assert_eq!(pico.key(), &KEY.to_vec());
    assert_eq!(pico.hash(), [0u8; 16]);
    assert!(!pico.is_hash_valid());
}

#[test]
fn new_without_metadata() {
    let pico = fresh(0);
    assert_eq!(pico.offset(), 32);
    assert_eq!(pico.metadata_length(), 0);
}

#[test]
fn new_refuses_an_empty_key() {
    assert!(matches!(
        Pico::new(ByteStore::new(), Vec::new(), 0),
        Err(PicoError::KeyError)
    ));
    assert!(matches!(
        Pico::new(ByteStore::new(), Vec::new(), u32::MAX),
        Err(PicoError::KeyError)
    ));
}

#[test]
fn new_takes_the_longest_key_that_the_header_records() {
    let pico = Pico::new(ByteStore::new(), vec![1u8; 0xffff], 3).unwrap();
    assert_eq!(pico.offset(), 28 + 0xffff + 3);
    assert_eq!(pico.store().len(), 28 + 0xffff);
    assert_eq!(&pico.store().as_bytes()[26..28], &[0xffu8, 0xff][..]);
}

#[test]
fn new_refuses_a_key_that_the_header_cannot_record() {
    assert!(matches!(
        Pico::new(ByteStore::new(), vec![1u8; 0x10000], 0),
        Err(PicoError::InternalError(ID_KEY_LONG))
    ));
}

#[test]
fn new_refuses_a_reservation_that_the_header_cannot_record() {
    assert!(matches!(
        Pico::new(ByteStore::new(), KEY.to_vec(), u32::MAX),
        Err(PicoError::InternalError(ID_OFFSET_LARGE))
    ));
    assert!(matches!(
        Pico::new(ByteStore::new(), KEY.to_vec(), u32::MAX - 31),
        Err(PicoError::InternalError(ID_OFFSET_LARGE))
    ));
    let pico = Pico::new(ByteStore::new(), KEY.to_vec(), u32::MAX - 32).unwrap();
    assert_eq!(pico.offset(), u32::MAX);
}

#[test]
fn new_over_a_store_that_holds_bytes_keeps_what_lies_after_the_header() {
    let old: Vec<u8> = (0..50u8).collect();
    let pico = Pico::new(ByteStore::from_bytes(old.clone()), KEY.to_vec(), 0).unwrap();
    let bytes = pico.into_store().into_bytes();
    let mut header = header_with_zero_hash();
    header[9] = 32;
    assert_eq!(&bytes[..32], &header[..]);
    assert_eq!(&bytes[32..], &old[32..]);
}

#[test]
fn open_reads_what_new_wrote() {
    let store = fresh(10).into_store();
    let pico = Pico::open(store).unwrap();
    assert_eq!(pico.version(), (1, 0));
    assert_eq!(pico.offset(), 42);
    assert_eq!(pico.metadata_length(), 10);
    assert_eq!(pico.key(), &KEY.to_vec());
    assert_eq!(pico.hash(), [0u8; 16]);
}

#[test]
fn open_takes_the_stored_hash_as_valid() {
    let mut bytes = header_with_zero_hash();
    for (index, byte) in bytes[10..26].iter_mut().enumerate() {
        *byte = index as u8 + 1;
    }
    bytes.extend_from_slice(&[0u8; 10]);
    bytes.extend_from_slice(b"whatever");
    let pico = Pico::open(ByteStore::from_bytes(bytes)).unwrap();
    assert!(pico.is_hash_valid());
    assert_eq!(
        pico.hash(),
        [1, 2, 3, 4, 5, 6, 7, 8, 9, 10, 11, 12, 13, 14, 15, 16]
    );
}

#[test]
fn open_hands_on_the_faults_of_the_header() {
    let good = header_with_zero_hash();

    let mut bytes = good.clone();
    bytes[1] = 0xc1;
    assert!(matches!(
        Pico::open(ByteStore::from_bytes(bytes)),
        Err(PicoError::NotPico(0x91c1))
    ));

    let mut bytes = good.clone();
    bytes[3] = 2;
    bytes[5] = 5;
    assert!(matches!(
        Pico::open(ByteStore::from_bytes(bytes)),
        Err(PicoError::BadVersion(2, 5, 1, 0))
    ));

    let mut bytes = good.clone();
    bytes[27] = 0;
    assert!(matches!(
        Pico::open(ByteStore::from_bytes(bytes)),
        Err(PicoError::KeyError)
    ));

    let mut bytes = good.clone();
    bytes[9] = 30;
    assert!(matches!(
        Pico::open(ByteStore::from_bytes(bytes)),
        Err(PicoError::BadOffset(30, 32))
    ));

    assert!(matches!(
        Pico::open(ByteStore::new()),
        Err(PicoError::ReadFailed(ID_HEADER_SHORT, _))
    ));
}

#[test]
fn open_with_a_bad_offset_reports_offset_and_minimum() {
    let mut bytes = header_with_zero_hash();
    bytes[6] = 0;
    bytes[7] = 0;
    bytes[8] = 0;
    bytes[9] = 28;
    match Pico::open(ByteStore::from_bytes(bytes)) {
        Err(PicoError::BadOffset(offset, least)) => {
            assert_eq!(offset, 28);
            assert_eq!(least, 28 + 4);
        }
        _ => panic!("a header with its data inside the key was opened"),
    }
}

#[test]
fn open_with_a_newer_major_is_refused() {
    let mut bytes = header_with_zero_hash();
    bytes[2] = 0x01;
    bytes[3] = 0x00;
    match Pico::open(ByteStore::from_bytes(bytes)) {
        Err(PicoError::BadVersion(major, minor, supported_major, supported_minor)) => {
            assert_eq!(major, 0x0100);
            assert_eq!(minor, 0);
            assert_eq!(supported_major, pico::major());
            assert_eq!(supported_minor, pico::minor());
        }
        _ => panic!("a header of a newer version was opened"),
    }
}

#[test]
fn put_with_a_zero_key_stores_the_data_as_it_is() {
    let mut pico = Pico::new(ByteStore::new(), vec![0x00], 0).unwrap();
    let mut data = [18u8, 21u8];
    assert_eq!(pico.put(0, &mut data).unwrap(), 2);
    assert_eq!(data, [18, 21]);
    assert_eq!(&pico.store().as_bytes()[29..], &[18u8, 21][..]);
}

#[test]
fn put_stores_the_ciphertext() {
    let mut pico = Pico::new(ByteStore::new(), vec![0x40, 0x09], 0).unwrap();
    let mut data = [0x09u8, 0x20, 0x00, 0xe0];
    assert_eq!(pico.put(0, &mut data).unwrap(), 4);
    assert_eq!(data, [0x49, 0x29, 0x40, 0xe9]);
    assert_eq!(&pico.store().as_bytes()[30..], &[0x49u8, 0x29, 0x40, 0xe9][..]);
}

#[test]
fn put_encrypts_the_buffer_of_the_caller() {
    let mut pico = fresh(0);
    let mut data = *b"plain";
    pico.put(0, &mut data).unwrap();
    assert_eq!(
        data,
        [b'p' ^ 0x55, b'l' ^ 0x21, b'a' ^ 0xe4, b'i' ^ 0x9a, b'n' ^ 0x55]
    );
}

#[test]
fn put_keys_the_cipher_by_the_position_in_the_data() {
    let mut pico = fresh(7);
    let mut data = [0u8; 3];
    pico.put(2, &mut data).unwrap();
    assert_eq!(data, [0xe4, 0x9a, 0x55]);
    let bytes = pico.store().as_bytes();
    assert_eq!(bytes.len(), 39 + 2 + 3);
    assert_eq!(&bytes[41..], &[0xe4u8, 0x9a, 0x55][..]);
}

#[test]
fn put_then_get_returns_the_data() {
    let mut pico = fresh(10);
    let plain: Vec<u8> = (0..200u8).collect();
    for position in [0usize, 1, 3, 4, 77, 5000] {
        let mut data = plain.clone();
        assert_eq!(pico.put(position, &mut data).unwrap(), 200);
        let mut back = vec![0u8; 200];
        assert_eq!(pico.get(position, &mut back).unwrap(), 200);
        assert_eq!(back, plain);
    }
}

#[test]
fn put_then_get_with_keys_of_many_lengths() {
    let plain: Vec<u8> = (0..=255u8).rev().collect();
    for key_len in [1usize, 2, 3, 5, 16, 255, 256, 1000] {
        let key: Vec<u8> = (0..key_len).map(|i| (i * 31 + 7) as u8).collect();
        let mut pico = Pico::new(ByteStore::new(), key, 5).unwrap();
        let mut data = plain.clone();
        pico.put(13, &mut data).unwrap();
        let mut back = vec![0u8; plain.len()];
        assert_eq!(pico.get(13, &mut back).unwrap(), plain.len());
        assert_eq!(back, plain);
    }
}

#[test]
fn put_marks_the_hash_stale() {
    let mut pico = fresh(0);
    pico.flush().unwrap();
    assert!(pico.is_hash_valid());
    let mut data = [1u8];
    pico.put(0, &mut data).unwrap();
    assert!(!pico.is_hash_valid());
}

#[test]
fn put_of_nothing_marks_the_hash_stale_too() {
    let mut pico = fresh(0);
    pico.flush().unwrap();
    assert_eq!(pico.put(0, &mut []).unwrap(), 0);
    assert!(!pico.is_hash_valid());
    assert_eq!(pico.store().len(), 32);
}

#[test]
fn put_past_the_end_leaves_a_gap_of_zero_bytes() {
    let mut pico = fresh(4);
    let mut data = [0xaau8];
    pico.put(3, &mut data).unwrap();
    let bytes = pico.store().as_bytes();
    assert_eq!(bytes.len(), 36 + 3 + 1);
    assert_eq!(&bytes[32..39], &[0u8; 7][..]);
    assert_eq!(bytes[39], 0xaa ^ 0x9a);
}

#[test]
fn put_at_a_position_that_cannot_be_addressed() {
    let mut pico = fresh(0);
    pico.flush().unwrap();
    let before = pico.store().as_bytes().to_vec();
    let mut data = [0u8; 2];
    assert!(matches!(
        pico.put(usize::MAX, &mut data),
        Err(PicoError::SeekFailed(ID_PUT_SEEK, _))
    ));
    assert_eq!(data, [KEY[(usize::MAX % 4) as usize], KEY[((usize::MAX % 4 + 1) % 4) as usize]]);
    assert!(pico.is_hash_valid());
    assert_eq!(pico.store().as_bytes(), &before[..]);
}

#[test]
fn put_that_would_end_beyond_what_can_be_addressed() {
    let mut pico = fresh(0);
    pico.flush().unwrap();
    let mut data = [0u8; 2];
    match pico.put(usize::MAX - 32 - 1, &mut data) {
        Err(PicoError::WriteFailed(id, cause)) => {
            assert_eq!(id, pico::errors::ID_PUT_WRITE);
            assert_eq!(cause.kind(), std::io::ErrorKind::InvalidInput);
        }
        _ => panic!("a write beyond the largest offset was taken"),
    }
    assert!(pico.is_hash_valid());
    assert_eq!(pico.store().len(), 32);
}

#[test]
fn get_at_the_end_is_short() {
    let mut pico = fresh(0);
    let mut data = *b"0123456789";
    pico.put(0, &mut data).unwrap();
    let mut back = [0xffu8; 8];
    assert_eq!(pico.get(6, &mut back).unwrap(), 4);
    assert_eq!(&back[..4], b"6789");
    assert_eq!(&back[4..], &[0xffu8; 4][..]);
}

#[test]
fn get_past_the_end_gives_nothing() {
    let mut pico = fresh(0);
    let mut data = *b"0123456789";
    pico.put(0, &mut data).unwrap();
    let mut back = [0xffu8; 8];
    assert_eq!(pico.get(10, &mut back).unwrap(), 0);
    assert_eq!(pico.get(11, &mut back).unwrap(), 0);
    assert_eq!(back, [0xff; 8]);
}

#[test]
fn get_from_a_container_without_data_gives_nothing() {
    let pico = fresh(10);
    let mut back = [0xffu8; 8];
    assert_eq!(pico.get(0, &mut back).unwrap(), 0);
    assert_eq!(back, [0xff; 8]);
}

#[test]
fn get_does_not_touch_the_hash() {
    let mut pico = fresh(0);
    let mut data = *b"0123456789";
    pico.put(0, &mut data).unwrap();
    pico.flush().unwrap();
    let hash = pico.hash();
    let mut back = [0u8; 4];
    pico.get(2, &mut back).unwrap();
    assert!(pico.is_hash_valid());
    assert_eq!(pico.hash(), hash);
}

#[test]
fn get_at_a_position_that_cannot_be_addressed() {
    let pico = fresh(0);
    let mut back = [7u8; 4];
    assert!(matches!(
        pico.get(usize::MAX, &mut back),
        Err(PicoError::SeekFailed(ID_GET_SEEK, _))
    ));
    assert_eq!(back, [7; 4]);
    assert_eq!(pico.get(usize::MAX - 32, &mut back).unwrap(), 0);
}

#[test]
fn metadata_scenario() {
    let mut pico = fresh(10);
    assert_eq!(pico.put_metadata(0, b"Martindale").unwrap(), 10);
    let mut buffer = [0u8; 10];
    assert_eq!(pico.get_metadata(0, &mut buffer).unwrap(), 10);
    assert_eq!(&buffer, b"Martindale");
    let mut buffer = [b'.'; 10];
    assert_eq!(pico.get_metadata(5, &mut buffer).unwrap(), 5);
    assert_eq!(&buffer, b"ndale.....");
}

#[test]
fn metadata_is_stored_as_it_is() {
    let mut pico = fresh(10);
    pico.put_metadata(0, b"Martindale").unwrap();
    assert_eq!(&pico.store().as_bytes()[32..42], b"Martindale");
}

#[test]
fn put_metadata_is_cut_to_the_region() {
    let mut pico = fresh(10);
    assert_eq!(pico.put_metadata(0, b"Martindale and more").unwrap(), 10);
    assert_eq!(pico.put_metadata(4, b"0123456789").unwrap(), 6);
    assert_eq!(pico.put_metadata(9, b"xy").unwrap(), 1);
    assert_eq!(pico.put_metadata(10, b"xy").unwrap(), 0);
    assert_eq!(pico.put_metadata(11, b"xy").unwrap(), 0);
    assert_eq!(pico.put_metadata(u32::MAX, b"xy").unwrap(), 0);
    assert_eq!(pico.put_metadata(3, b"").unwrap(), 0);
    assert_eq!(pico.store().len(), 42);
    assert_eq!(&pico.store().as_bytes()[32..42], b"Mart01234x");
}

#[test]
fn put_metadata_without_a_region_writes_nothing() {
    let mut pico = fresh(0);
    assert_eq!(pico.put_metadata(0, b"Martindale").unwrap(), 0);
    assert_eq!(pico.store().len(), 32);
    let mut buffer = [0u8; 4];
    assert_eq!(pico.get_metadata(0, &mut buffer).unwrap(), 0);
}

#[test]
fn put_metadata_does_not_touch_the_hash_or_the_data() {
    let mut pico = fresh(10);
    let mut data = *b"some data";
    pico.put(0, &mut data).unwrap();
    pico.flush().unwrap();
    let hash = pico.hash();
    pico.put_metadata(2, b"meta").unwrap();
    assert!(pico.is_hash_valid());
    assert_eq!(pico.hash(), hash);
    let mut back = [0u8; 9];
    assert_eq!(pico.get(0, &mut back).unwrap(), 9);
    assert_eq!(&back, b"some data");
}

#[test]
fn metadata_not_written_reads_as_zero_once_the_data_is_there() {
    let mut pico = fresh(10);
    pico.put_metadata(3, b"abc").unwrap();
    let mut data = *b"d";
    pico.put(0, &mut data).unwrap();
    let mut buffer = [0xffu8; 10];
    assert_eq!(pico.get_metadata(0, &mut buffer).unwrap(), 10);
    assert_eq!(&buffer, b"\0\0\0abc\0\0\0\0");
}

#[test]
fn get_metadata_reads_only_what_the_store_holds() {
    let mut pico = fresh(10);
    let mut buffer = [0xffu8; 10];
    assert_eq!(pico.get_metadata(0, &mut buffer).unwrap(), 0);
    pico.put_metadata(0, b"abc").unwrap();
    assert_eq!(pico.get_metadata(0, &mut buffer).unwrap(), 3);
    assert_eq!(&buffer[..3], b"abc");
    assert_eq!(pico.get_metadata(3, &mut buffer).unwrap(), 0);
}

#[test]
fn get_metadata_does_not_read_into_the_data() {
    let mut pico = fresh(4);
    pico.put_metadata(0, b"meta").unwrap();
    let mut data = *b"data";
    pico.put(0, &mut data).unwrap();
    let mut buffer = [0xffu8; 8];
    assert_eq!(pico.get_metadata(0, &mut buffer).unwrap(), 4);
    assert_eq!(&buffer, b"meta\xff\xff\xff\xff");
    assert_eq!(pico.get_metadata(2, &mut buffer).unwrap(), 2);
    assert_eq!(&buffer[..2], b"ta");
    assert_eq!(pico.get_metadata(4, &mut buffer).unwrap(), 0);
    assert_eq!(pico.get_metadata(5, &mut buffer).unwrap(), 0);
}

#[test]
fn flush_of_an_empty_container_records_the_digest_of_nothing() {
    let mut pico = fresh(10);
    pico.flush().unwrap();
    assert!(pico.is_hash_valid());
    assert_eq!(pico.hash(), EMPTY_DIGEST);
    assert_eq!(&pico.store().as_bytes()[10..26], &EMPTY_DIGEST[..]);
}

#[test]
fn flush_records_the_digest_of_the_plain_data() {
    let mut pico = fresh(10);
    pico.put_metadata(0, b"Martindale").unwrap();
    let mut data = *b"abc";
    pico.put(0, &mut data).unwrap();
    pico.flush().unwrap();
    assert_eq!(pico.hash(), md5::compute(b"abc").0);
    assert_eq!(
        pico.hash().to_vec(),
        hex::decode("900150983cd24fb0d6963f7d28e17f72").unwrap()
    );
    assert_eq!(&pico.store().as_bytes()[10..26], &pico.hash()[..]);
}

#[test]
fn flush_scans_data_longer_than_a_chunk() {
    let mut pico = fresh(3);
    let plain: Vec<u8> = (0..3 * 4096 + 17).map(|i| (i % 253) as u8).collect();
    let mut data = plain.clone();
    pico.put(0, &mut data).unwrap();
    pico.flush().unwrap();
    assert_eq!(pico.hash(), md5::compute(&plain).0);
}

#[test]
fn flush_scans_data_of_exactly_one_chunk() {
    let mut pico = fresh(0);
    let plain = vec![0x5au8; 4096];
    let mut data = plain.clone();
    pico.put(0, &mut data).unwrap();
    pico.flush().unwrap();
    assert_eq!(pico.hash(), md5::compute(&plain).0);
}

#[test]
fn flush_covers_the_gap_before_data_put_past_the_end() {
    let mut pico = fresh(0);
    let mut data = *b"z";
    pico.put(2, &mut data).unwrap();
    pico.flush().unwrap();
    assert_eq!(pico.hash(), md5::compute([0x55u8, 0x21, b'z']).0);
}

#[test]
fn flush_does_not_compute_a_hash_that_is_valid() {
    let mut bytes = header_with_zero_hash();
    bytes[9] = 32;
    bytes.extend_from_slice(b"data that the zero hash does not match");
    let mut pico = Pico::open(ByteStore::from_bytes(bytes.clone())).unwrap();
    pico.flush().unwrap();
    assert_eq!(pico.hash(), [0u8; 16]);
    assert_eq!(pico.into_store().into_bytes(), bytes);
}

#[test]
fn flush_twice_changes_nothing() {
    let mut pico = fresh(5);
    let mut data = *b"stable";
    pico.put(0, &mut data).unwrap();
    pico.flush().unwrap();
    let bytes = pico.store().as_bytes().to_vec();
    let hash = pico.hash();
    pico.flush().unwrap();
    assert_eq!(pico.hash(), hash);
    assert_eq!(pico.store().as_bytes(), &bytes[..]);
}

#[test]
fn compute_hash_changes_nothing() {
    let mut pico = fresh(0);
    let mut data = *b"abc";
    pico.put(0, &mut data).unwrap();
    assert_eq!(pico.compute_hash().unwrap(), md5::compute(b"abc").0);
    assert!(!pico.is_hash_valid());
    assert_eq!(pico.hash(), [0u8; 16]);
    assert_eq!(pico.compute_hash().unwrap(), md5::compute(b"abc").0);
}

#[test]
fn hash_is_stable_over_closing_and_opening() {
    let mut pico = fresh(10);
    pico.put_metadata(0, b"Martindale").unwrap();
    let plain: Vec<u8> = (0..9000u32).map(|i| (i * 13) as u8).collect();
    let mut data = plain.clone();
    pico.put(0, &mut data).unwrap();
    pico.flush().unwrap();
    let flushed = pico.hash();
    let again = Pico::open(pico.into_store()).unwrap();
    assert!(again.is_hash_valid());
    assert_eq!(again.hash(), flushed);
    assert_eq!(again.compute_hash().unwrap(), flushed);
    assert_eq!(flushed, md5::compute(&plain).0);
}

#[test]
fn a_container_opens_again_with_its_data_and_metadata() {
    let mut pico = fresh(10);
    pico.put_metadata(0, b"Martindale").unwrap();
    let mut data = *b"the data";
    pico.put(0, &mut data).unwrap();
    pico.flush().unwrap();
    let again = Pico::open(pico.into_store()).unwrap();
    let mut metadata = [0u8; 10];
    assert_eq!(again.get_metadata(0, &mut metadata).unwrap(), 10);
    assert_eq!(&metadata, b"Martindale");
    let mut back = [0u8; 20];
    assert_eq!(again.get(0, &mut back).unwrap(), 8);
    assert_eq!(&back[..8], b"the data");
}

#[test]
fn an_unflushed_container_opens_with_the_hash_last_written() {
    let mut pico = fresh(0);
    let mut data = *b"abc";
    pico.put(0, &mut data).unwrap();
    let again = Pico::open(pico.into_store()).unwrap();
    assert!(again.is_hash_valid());
    assert_eq!(again.hash(), [0u8; 16]);
}

fn flushed_sample() -> Pico {
    let mut pico = fresh(10);
    pico.flush().unwrap();
    pico
}

#[test]
fn dump_header_as_dict() {
    let mut text: Vec<u8> = Vec::new();
    flushed_sample().dump_header(&mut text, &HeaderFormat::DICT);
    assert_eq!(
        String::from_utf8(text).unwrap(),
        "{\n    \"magic\" : [ 0x91, 0xC0 ],\n    \"major\" : 1,\n    \"minor\" : 0,\n    \
         \"offset\" : 42,\n    \"hash\" : [ 0xD4, 0x1D, 0x8C, 0xD9, 0x8F, 0x00, 0xB2, 0x04, \
         0xE9, 0x80, 0x09, 0x98, 0xEC, 0xF8, 0x42, 0x7E ],\n    \"key_length\" : 4,\n    \
         \"key\" : [ 0x55, 0x21, 0xE4, 0x9A ],\n    \"md_length\" : 10,\n}\n"
    );
}

#[test]
fn dump_header_as_json() {
    let mut text: Vec<u8> = Vec::new();
    flushed_sample().dump_header(&mut text, &HeaderFormat::JSON);
    assert_eq!(
        String::from_utf8(text).unwrap(),
        "{\n    \"magic\" : [ 145, 192 ],\n    \"major\" : 1,\n    \"minor\" : 0,\n    \
         \"offset\" : 42,\n    \"hash\" : [ 212, 29, 140, 217, 143, 0, 178, 4, 233, 128, 9, \
         152, 236, 248, 66, 126 ],\n    \"key_length\" : 4,\n    \"key\" : [ 85, 33, 228, 154 \
         ],\n    \"md_length\" : 10\n}\n"
    );
}

#[test]
fn dump_header_as_yaml() {
    let mut text: Vec<u8> = Vec::new();
    flushed_sample().dump_header(&mut text, &HeaderFormat::YAML);
    assert_eq!(
        String::from_utf8(text).unwrap(),
        "magic: [ 145, 192 ]\nmajor: 1\nminor: 0\noffset: 42\nhash: [ 212, 29, 140, 217, 143, \
         0, 178, 4, 233, 128, 9, 152, 236, 248, 66, 126 ]\nkey_length: 4\nkey: [ 85, 33, 228, \
         154 ]\nmd_length: 10\n"
    );
}

#[test]
fn dump_header_as_xml() {
    let mut text: Vec<u8> = Vec::new();
    flushed_sample().dump_header(&mut text, &HeaderFormat::XML);
    assert_eq!(
        String::from_utf8(text).unwrap(),
        "<pico magic='0x91C0' major='1' minor='0' offset='42' \
         hash='D41D8CD98F00B204E9800998ECF8427E' key='5521E49A' md_length='10' />\n"
    );
}

#[test]
fn dump_header_appends_to_what_is_there() {
    let mut text: Vec<u8> = Vec::from("# header\n");
    flushed_sample().dump_header(&mut text, &HeaderFormat::YAML);
    assert!(text.starts_with(b"# header\nmagic: [ 145, 192 ]\n"));
}
