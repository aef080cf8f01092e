//! Whole-file operations for Pico encoding and decoding.
//!
//! The functions here work on files as runs of bytes: they take the bytes
//! of the input and return the bytes of the output.  Bringing bytes from
//! and to the file system is left to the caller.

use vstd::prelude::*;
use crate::codec::append;
use crate::constants::{CHUNK_SIZE, KEY_POS};
use crate::crypt::crypt_seq;
use crate::errors::{Fault, PicoError, ID_PUT_WRITE};
use crate::header::{rendered, HeaderFormat};
use crate::hash::digest_of;
use crate::pico::{
    create_fault, created, lemma_created, lemma_flush, lemma_metadata_round_trip, lemma_put_then_get,
    lemma_reopen, opened, Pico, PicoView,
};
use crate::store::{read_from, window, written, ByteStore};

verus! {

/// Why `source_len` bytes cannot be encoded under a key of `key_len` bytes
/// with `reserve` bytes of metadata, if they cannot: the container cannot
/// be created; or the file would end beyond what can be addressed.
pub open spec fn encode_fault(source_len: int, key_len: int, reserve: u32) -> Option<Fault> {
    match create_fault(key_len, reserve) {
        Some(fault) => Some(fault),
        None => if KEY_POS + key_len + reserve + source_len > usize::MAX {
            Some(Fault::WriteFailed(ID_PUT_WRITE))
        } else {
            None
        },
    }
}

/// The container that encoding `source` leaves: created in an empty store,
/// the metadata written at the start of its region as far as it fits, the
/// source put at position 0, and flushed.
pub open spec fn encoded(source: Seq<u8>, key: Seq<u8>, metadata: Seq<u8>, reserve: u32) -> PicoView {
    let fresh = created(Seq::<u8>::empty(), key, reserve);
    let count = fresh.metadata_count(0, metadata.len() as int);
    fresh.put_metadata(0, metadata.take(count)).put(0, source).flushed()
}

/// The cipher over two pieces, the second placed right after the first, is
/// the cipher over both pieces as one.
pub proof fn lemma_crypt_pieces(position: int, first: Seq<u8>, second: Seq<u8>, key: Seq<u8>)
    ensures
        crypt_seq(position, first + second, key) == crypt_seq(position, first, key) + crypt_seq(
            position + first.len(),
            second,
            key,
        ),
{
}

/// Two puts, the second placed right after the first, leave what one put
/// of both pieces leaves.
pub proof fn lemma_put_pieces(before: PicoView, position: int, first: Seq<u8>, second: Seq<u8>)
    requires
        position >= 0,
    ensures
        before.put(position, first).put(position + first.len(), second) == before.put(
            position,
            first + second,
        ),
{
    lemma_crypt_pieces(position, first, second, before.key);
    let at = before.offset + position;
    let one = crypt_seq(position, first, before.key);
    let two = crypt_seq(position + first.len(), second, before.key);
    assert(written(written(before.store, at, one), at + first.len(), two) =~= written(
        before.store,
        at,
        one + two,
    ));
}

/// Decoding what was encoded gives the source back: the container opens,
/// its plain data is the source, and its hash is the digest of the source.
pub proof fn lemma_decode_encoded_file(
    source: Seq<u8>,
    key: Seq<u8>,
    metadata: Seq<u8>,
    reserve: u32,
)
    requires
        create_fault(key.len() as int, reserve) is None,
    ensures
        ({
            let file = encoded(source, key, metadata, reserve);
            &&& file.wf()
            &&& opened(file.store) == Ok::<PicoView, Fault>(file)
            &&& file.data() == source
            &&& file.hash == digest_of(source)
        }),
{
    let fresh = created(Seq::<u8>::empty(), key, reserve);
    lemma_created(Seq::<u8>::empty(), key, reserve);
    let count = fresh.metadata_count(0, metadata.len() as int);
    let noted = fresh.put_metadata(0, metadata.take(count));
    lemma_metadata_round_trip(fresh, 0, metadata);
    let filled = noted.put(0, source);
    lemma_put_then_get(noted, 0, source);
    assert(filled.data() =~= window(filled.data(), 0, source.len() as int));
    lemma_flush(filled);
    lemma_reopen(filled.flushed());
}

/// Encode `source` as a Pico file.
///
/// A container is created in an empty store under `key`, with `reserve`
/// bytes of metadata; `metadata` is written at the start of the metadata
/// region, cut to what fits; the source is put into the data region chunk
/// by chunk; and the container is flushed.  The bytes of the store are
/// returned.
pub fn encode(source: &[u8], key: Vec<u8>, metadata: Vec<u8>, reserve: u32) -> (result: Result<
    Vec<u8>,
    PicoError,
>)
    ensures
        match encode_fault(source@.len() as int, key@.len() as int, reserve) {
            None => result matches Ok(bytes) && bytes@ == encoded(
                source@,
                key@,
                metadata@,
                reserve,
            ).store,
            Some(fault) => result matches Err(error) && error@ == fault,
        },
{
    let mut pico = Pico::new(ByteStore::new(), key, reserve)?;
    let _ = pico.put_metadata(0, metadata.as_slice())?;
    let ghost noted = pico@;
    let mut buffer: Vec<u8> = vec![0u8; CHUNK_SIZE];
    let mut position: usize = 0;
    let mut more: bool = true;
    while more
        invariant
            pico.wf(),
            buffer@.len() == CHUNK_SIZE,
            position <= source@.len(),
            pico@ == noted.put(0, source@.take(position as int)),
            noted.offset + position <= usize::MAX,
            !more ==> position == source@.len(),
            noted.offset == KEY_POS + key@.len() + reserve,
            create_fault(key@.len() as int, reserve) is None,
        decreases source@.len() - position + (if more { 1int } else { 0int }),
    {
        let count = read_from(source, position, buffer.as_mut_slice());
        if count == 0 {
            more = false;
        } else {
            let (head, _) = buffer.as_mut_slice().split_at_mut(count);
            let ghost chunk = head@;
            match pico.put(position, head) {
                Ok(_) => {},
                Err(error) => {
                    return Err(error);
                },
            }
            proof {
                lemma_put_pieces(noted, 0, source@.take(position as int), chunk);
                assert(source@.take(position as int) + chunk =~= source@.take(position + count));
            }
            position = position + count;
        }
    }
    assert(source@.take(position as int) =~= source@);
    pico.flush()?;
    Ok(pico.into_store().into_bytes())
}

/// Decode a Pico file: return the plain bytes of its data region.
///
/// The container is opened from `container`, which hands on the faults of
/// its header, and the data region is read through the cipher chunk by
/// chunk until a read yields nothing.  The container itself is not
/// changed: its hash is taken as valid, so there is nothing to repair.
pub fn decode(container: &[u8]) -> (result: Result<Vec<u8>, PicoError>)
    ensures
        match opened(container@) {
            Ok(view) => result matches Ok(plain) && plain@ == view.data(),
            Err(fault) => result matches Err(error) && error@ == fault,
        },
{
    let pico = Pico::open(ByteStore::from_bytes(vstd::slice::slice_to_vec(container)))?;
    let mut plain: Vec<u8> = Vec::new();
    let mut buffer: Vec<u8> = vec![0u8; CHUNK_SIZE];
    let mut position: usize = 0;
    let mut more: bool = true;
    proof {
        pico.lemma_data_fits();
    }
    while more
        invariant
            pico.wf(),
            buffer@.len() == CHUNK_SIZE,
            pico@.offset + pico@.data().len() <= usize::MAX,
            position <= pico@.data().len(),
            plain@ == pico@.data().take(position as int),
            !more ==> position == pico@.data().len(),
        decreases pico@.data().len() - position + (if more { 1int } else { 0int }),
    {
        let count = pico.get(position, buffer.as_mut_slice())?;
        if count == 0 {
            more = false;
        } else {
            let chunk = vstd::slice::slice_subrange(buffer.as_slice(), 0, count);
            append(&mut plain, chunk);
            position = position + count;
        }
    }
    Ok(plain)
}

/// Write the header of a Pico file as text in the given format.
///
/// The container is opened from `container`, which hands on the faults of
/// its header, and the text is appended to `to`.  Where the container
/// does not open, `to` is left as it was.
pub fn dump_header(container: &[u8], to: &mut Vec<u8>, format: &HeaderFormat) -> (result: Result<
    (),
    PicoError,
>)
    ensures
        match opened(container@) {
            Ok(view) => result is Ok && final(to)@ == old(to)@ + rendered(
                view.header(),
                view.metadata_length() as nat,
                *format,
            ),
            Err(fault) => result matches Err(error) && error@ == fault && final(to)@ == old(to)@,
        },
{
    let pico = Pico::open(ByteStore::from_bytes(vstd::slice::slice_to_vec(container)))?;
    pico.dump_header(to, format);
    Ok(())
}

} // verus!
