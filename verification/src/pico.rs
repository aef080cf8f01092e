//! The Pico container: a header, a key, a metadata region and an encrypted
//! data region in one byte store.

use vstd::prelude::*;
use crate::codec::{
    append, decode_header, decoded, encode_header, lemma_decode_encoded, lemma_encode_decoded,
    HeaderFields, HeaderView,
};
use crate::constants::{CHUNK_SIZE, HASH_LEN, KEY_MAX, KEY_POS, MAJOR, MINOR};
use crate::crypt::{crypt, crypt_seq, keystream, lemma_xor_twice};
use crate::errors::{
    out_of_range, Fault, PicoError, ID_GET_SEEK, ID_KEY_LONG, ID_OFFSET_LARGE, ID_PUT_SEEK,
    ID_PUT_WRITE,
};
use crate::hash::{digest_of, Hasher};
use crate::header::{render_header, rendered, HeaderFormat};
use crate::store::{readable, window, written, ByteStore};

verus! {

/// A Pico container as mathematical values: the fields of its header,
/// whether the hash is known to match the data, and the bytes of its store.
pub struct PicoView {
    pub major: u16,
    pub minor: u16,
    pub offset: u32,
    pub hash: Seq<u8>,
    pub hash_valid: bool,
    pub key: Seq<u8>,
    pub store: Seq<u8>,
}

impl PicoView {
    /// The header that the container stands for.
    pub open spec fn header(self) -> HeaderView {
        HeaderView {
            major: self.major,
            minor: self.minor,
            offset: self.offset,
            hash: self.hash,
            key: self.key,
        }
    }

    /// Absolute offset of the metadata region: the fixed header length plus
    /// the key length.
    pub open spec fn metadata_start(self) -> int {
        KEY_POS + self.key.len()
    }

    /// Length of the metadata region: what lies between the key and the
    /// data.
    pub open spec fn metadata_length(self) -> int {
        self.offset - self.metadata_start()
    }

    /// The invariant of a container: its header is valid, and the store
    /// begins with the bytes of that header.
    pub open spec fn wf(self) -> bool {
        &&& self.header().valid()
        &&& self.store.len() >= self.metadata_start()
        &&& self.store.subrange(0, self.metadata_start()) == self.header().encoded()
    }

    /// The plain bytes of the data region: what the store holds from the
    /// data offset on, run through the cipher from position 0.
    pub open spec fn data(self) -> Seq<u8> {
        if self.store.len() <= self.offset {
            Seq::<u8>::empty()
        } else {
            crypt_seq(0, self.store.skip(self.offset as int), self.key)
        }
    }

    /// How many bytes a metadata access of `want` bytes at `start` may
    /// touch: none at or past the end of the region, else what is left of
    /// the region, capped at `want`.
    pub open spec fn metadata_count(self, start: int, want: int) -> int {
        if start >= self.metadata_length() {
            0
        } else if want > self.metadata_length() - start {
            self.metadata_length() - start
        } else {
            want
        }
    }

    /// The container after `plain` is put at `position` of the data region:
    /// the store holds the encrypted bytes there, and the hash is no longer
    /// known to match.
    pub open spec fn put(self, position: int, plain: Seq<u8>) -> PicoView {
        PicoView {
            store: written(self.store, self.offset + position, crypt_seq(position, plain, self.key)),
            hash_valid: false,
            ..self
        }
    }

    /// The container after `bytes` are written at `start` of the metadata
    /// region, as they are.
    pub open spec fn put_metadata(self, start: int, bytes: Seq<u8>) -> PicoView {
        PicoView { store: written(self.store, self.metadata_start() + start, bytes), ..self }
    }

    /// The hash that a flush leaves: the one held if it is valid, else the
    /// digest of the plain data.
    pub open spec fn fresh_hash(self) -> Seq<u8> {
        if self.hash_valid {
            self.hash
        } else {
            digest_of(self.data())
        }
    }

    /// The container after a flush: the hash is valid, and the store begins
    /// with the header that records it.
    pub open spec fn flushed(self) -> PicoView {
        let hash = self.fresh_hash();
        PicoView {
            hash,
            hash_valid: true,
            store: written(self.store, 0, PicoView { hash, ..self }.header().encoded()),
            ..self
        }
    }
}

/// Why a container cannot be created with a key of `key_len` bytes and
/// `reserve` bytes of metadata, if it cannot: the key is empty; or it is
/// longer than the key length field can record; or the data offset would
/// not fit its field.
pub open spec fn create_fault(key_len: int, reserve: u32) -> Option<Fault> {
    if key_len == 0 {
        Some(Fault::KeyError)
    } else if key_len > KEY_MAX {
        Some(Fault::InternalError(ID_KEY_LONG))
    } else if KEY_POS + key_len + reserve > u32::MAX {
        Some(Fault::InternalError(ID_OFFSET_LARGE))
    } else {
        None
    }
}

/// The container that creation leaves in `store`: this library's version,
/// the data offset after header, key and reserved metadata, a hash of
/// zeros that is not valid, and the header written at the start of the
/// store.
pub open spec fn created(store: Seq<u8>, key: Seq<u8>, reserve: u32) -> PicoView {
    let fresh = PicoView {
        major: MAJOR,
        minor: MINOR,
        offset: (KEY_POS + key.len() + reserve) as u32,
        hash: Seq::new(HASH_LEN as nat, |i: int| 0u8),
        hash_valid: false,
        key,
        store,
    };
    PicoView { store: written(store, 0, fresh.header().encoded()), ..fresh }
}

/// What opening `store` gives: the container that its header describes,
/// with the stored hash taken as valid, or the fault found in the header.
pub open spec fn opened(store: Seq<u8>) -> Result<PicoView, Fault> {
    match decoded(store) {
        Ok(header) => Ok(
            PicoView {
                major: header.major,
                minor: header.minor,
                offset: header.offset,
                hash: header.hash,
                hash_valid: true,
                key: header.key,
                store,
            },
        ),
        Err(fault) => Err(fault),
    }
}

/// A Pico container over the byte store that it owns.
pub struct Pico {
    store: ByteStore,
    major: u16,
    minor: u16,
    offset: u32,
    hash: [u8; 16],
    hash_valid: bool,
    key: Vec<u8>,
    md_start: usize,
    md_length: usize,
}

impl View for Pico {
    type V = PicoView;

    closed spec fn view(&self) -> PicoView {
        PicoView {
            major: self.major,
            minor: self.minor,
            offset: self.offset,
            hash: self.hash@,
            hash_valid: self.hash_valid,
            key: self.key@,
            store: self.store@,
        }
    }
}

impl Pico {
    /// The invariant of the container: that of its view, and the two
    /// lengths it keeps agree with header and key.
    pub closed spec fn wf(&self) -> bool {
        &&& self@.wf()
        &&& self.md_start == self@.metadata_start()
        &&& self.md_length == self@.metadata_length()
    }

    /// A well-formed container has a well-formed view.
    pub proof fn lemma_wf(&self)
        requires
            self.wf(),
        ensures
            self@.wf(),
    {
    }

    /// The data region ends at an offset that can be addressed.
    pub proof fn lemma_data_fits(&self)
        requires
            self.wf(),
        ensures
            self@.offset + self@.data().len() <= usize::MAX,
    {
        self.store.lemma_len();
    }

    /// The fields that the header of the container records.
    fn fields(&self) -> (fields: HeaderFields)
        ensures
            fields@ == self@.header(),
    {
        let mut key: Vec<u8> = Vec::new();
        append(&mut key, self.key.as_slice());
        HeaderFields {
            major: self.major,
            minor: self.minor,
            offset: self.offset,
            hash: self.hash,
            key,
        }
    }

    /// Create a container in `store` with the given key and room for
    /// `reserve` bytes of metadata.
    ///
    /// The header is written at once, with a hash of zeros; the hash is
    /// not valid until the first flush.  An empty key is refused with
    /// `KeyError`.  A key longer than the header can record, and a
    /// reservation that would move the data beyond what the header can
    /// record, are refused with `InternalError`.
    pub fn new(store: ByteStore, key: Vec<u8>, reserve: u32) -> (result: Result<Pico, PicoError>)
        ensures
            match create_fault(key@.len() as int, reserve) {
                None => result matches Ok(pico) && pico.wf() && pico@ == created(
                    store@,
                    key@,
                    reserve,
                ),
                Some(fault) => result matches Err(error) && error@ == fault,
            },
    {
        if key.len() == 0 {
            return Err(PicoError::KeyError);
        }
        if key.len() > KEY_MAX {
            return Err(PicoError::InternalError(ID_KEY_LONG));
        }
        let md_start: usize = KEY_POS + key.len();
        if reserve > u32::MAX - (md_start as u32) {
            return Err(PicoError::InternalError(ID_OFFSET_LARGE));
        }
        let offset: u32 = md_start as u32 + reserve;
        let mut pico = Pico {
            store,
            major: MAJOR,
            minor: MINOR,
            offset,
            hash: [0u8; 16],
            hash_valid: false,
            key,
            md_start,
            md_length: reserve as usize,
        };
        assert(pico.hash@ =~= Seq::new(HASH_LEN as nat, |i: int| 0u8));
        pico.write_header();
        Ok(pico)
    }

    /// Write the header for the fields held at the start of the store.
    fn write_header(&mut self)
        requires
            old(self)@.header().valid(),
            old(self).md_start == old(self)@.metadata_start(),
            old(self).md_length == old(self)@.metadata_length(),
        ensures
            final(self).wf(),
            final(self)@ == (PicoView {
                store: written(old(self)@.store, 0, old(self)@.header().encoded()),
                ..old(self)@
            }),
    {
        let header = encode_header(&self.fields());
        let _ = self.store.write_at(0, header.as_slice());
        assert(self.store@.subrange(0, self@.metadata_start()) =~= self@.header().encoded());
    }

    /// Open the container that `store` holds.
    ///
    /// The header is read and checked; the faults of a header are handed
    /// on as they are.  The stored hash is taken as valid: opening does
    /// not compute it again.
    pub fn open(store: ByteStore) -> (result: Result<Pico, PicoError>)
        ensures
            match opened(store@) {
                Ok(view) => result matches Ok(pico) && pico.wf() && pico@ == view,
                Err(fault) => result matches Err(error) && error@ == fault,
            },
    {
        let fields = decode_header(store.as_bytes())?;
        proof {
            lemma_encode_decoded(store@);
        }
        let md_start: usize = KEY_POS + fields.key.len();
        let md_length: usize = fields.offset as usize - md_start;
        Ok(
            Pico {
                store,
                major: fields.major,
                minor: fields.minor,
                offset: fields.offset,
                hash: fields.hash,
                hash_valid: true,
                key: fields.key,
                md_start,
                md_length,
            },
        )
    }

    /// Read from the metadata region, starting `start` bytes into it.
    ///
    /// Nothing is read at or past the end of the region.  Otherwise at
    /// most as many bytes as are left of the region are read, into the
    /// start of `buffer`; the count of bytes read is returned, and the
    /// rest of `buffer` is left alone.  Metadata is not encrypted.
    pub fn get_metadata(&self, start: u32, buffer: &mut [u8]) -> (result: Result<usize, PicoError>)
        requires
            self.wf(),
        ensures
            result matches Ok(count) && {
                &&& count == readable(
                    self@.store.len() as int,
                    self@.metadata_start() + start,
                    self@.metadata_count(start as int, old(buffer)@.len() as int),
                )
                &&& final(buffer)@ == window(
                    self@.store,
                    self@.metadata_start() + start,
                    count as int,
                ) + old(buffer)@.skip(count as int)
            },
    {
        if self.md_length == 0 || start as usize >= self.md_length {
            return Ok(0);
        }
        let room: usize = self.md_length - start as usize;
        let limit: usize = if buffer.len() < room {
            buffer.len()
        } else {
            room
        };
        let (head, _) = buffer.split_at_mut(limit);
        let count = self.store.read_at(self.md_start + start as usize, head);
        Ok(count)
    }

    /// Write to the metadata region, starting `start` bytes into it.
    ///
    /// The write is cut to what is left of the region: the bytes of
    /// `buffer` that fit are written and counted, the others are dropped.
    /// At or past the end of the region nothing is written.  This is never
    /// an error, and it does not touch the hash.
    pub fn put_metadata(&mut self, start: u32, buffer: &[u8]) -> (result: Result<usize, PicoError>)
        requires
            old(self).wf(),
        ensures
            final(self).wf(),
            result matches Ok(count) && {
                &&& count == old(self)@.metadata_count(start as int, buffer@.len() as int)
                &&& final(self)@ == old(self)@.put_metadata(
                    start as int,
                    buffer@.take(count as int),
                )
            },
    {
        if self.md_length == 0 || start as usize >= self.md_length {
            return Ok(0);
        }
        let room: usize = self.md_length - start as usize;
        let count: usize = if buffer.len() < room {
            buffer.len()
        } else {
            room
        };
        let piece = vstd::slice::slice_subrange(buffer, 0, count);
        let _ = self.store.write_at(self.md_start + start as usize, piece);
        proof {
            lemma_written_keeps_prefix(
                old(self)@.store,
                old(self)@.metadata_start() + start,
                piece@,
                old(self)@.metadata_start(),
            );
        }
        Ok(count)
    }

    /// Read from the data region at `position`, and decrypt.
    ///
    /// Reads into the start of `buffer` as many bytes as the store has at
    /// `position`, at most `buffer.len()`, and decrypts them in place.
    /// Returns the count; 0 means that `position` is at or past the end of
    /// the data.  The rest of `buffer` is left alone.  The hash is not
    /// touched.  Fails with `SeekFailed` where `position` cannot be
    /// addressed.
    pub fn get(&self, position: usize, buffer: &mut [u8]) -> (result: Result<usize, PicoError>)
        requires
            self.wf(),
        ensures
            match result {
                Ok(count) => {
                    &&& self@.offset + position <= usize::MAX
                    &&& count == readable(
                        self@.data().len() as int,
                        position as int,
                        old(buffer)@.len() as int,
                    )
                    &&& final(buffer)@ == window(self@.data(), position as int, count as int)
                        + old(buffer)@.skip(count as int)
                },
                Err(error) => {
                    &&& self@.offset + position > usize::MAX
                    &&& error@ == Fault::SeekFailed(ID_GET_SEEK)
                    &&& final(buffer)@ == old(buffer)@
                },
            },
    {
        let offset: usize = self.offset as usize;
        if position > usize::MAX - offset {
            return Err(PicoError::SeekFailed(ID_GET_SEEK, out_of_range()));
        }
        let count = self.store.read_at(offset + position, buffer);
        let (head, _) = buffer.split_at_mut(count);
        crypt(position, head, &self.key);
        Ok(count)
    }

    /// Encrypt `buffer` and write it to the data region at `position`.
    ///
    /// The buffer is encrypted in place before anything else is done.  On
    /// success all of it is written, the store grows as needed, and the
    /// hash is no longer valid.  Fails with `SeekFailed` where `position`
    /// cannot be addressed, and with `WriteFailed` where the end of the
    /// write cannot be; the container is then as it was.
    pub fn put(&mut self, position: usize, buffer: &mut [u8]) -> (result: Result<usize, PicoError>)
        requires
            old(self).wf(),
        ensures
            final(self).wf(),
            final(buffer)@ == crypt_seq(position as int, old(buffer)@, old(self)@.key),
            match result {
                Ok(count) => {
                    &&& old(self)@.offset + position + old(buffer)@.len() <= usize::MAX
                    &&& count == old(buffer)@.len()
                    &&& final(self)@ == old(self)@.put(position as int, old(buffer)@)
                },
                Err(error) => {
                    &&& old(self)@.offset + position + old(buffer)@.len() > usize::MAX
                    &&& error@ == if old(self)@.offset + position > usize::MAX {
                        Fault::SeekFailed(ID_PUT_SEEK)
                    } else {
                        Fault::WriteFailed(ID_PUT_WRITE)
                    }
                    &&& final(self)@ == old(self)@
                },
            },
    {
        crypt(position, buffer, &self.key);
        let offset: usize = self.offset as usize;
        if position > usize::MAX - offset {
            return Err(PicoError::SeekFailed(ID_PUT_SEEK, out_of_range()));
        }
        if buffer.len() > usize::MAX - (offset + position) {
            return Err(PicoError::WriteFailed(ID_PUT_WRITE, out_of_range()));
        }
        let _ = self.store.write_at(offset + position, buffer);
        self.hash_valid = false;
        proof {
            lemma_written_keeps_prefix(
                old(self)@.store,
                old(self)@.offset + position,
                buffer@,
                old(self)@.metadata_start(),
            );
        }
        Ok(buffer.len())
    }

    /// Compute the digest of the plain data.
    ///
    /// The data region is read from position 0 through `get`, a chunk at a
    /// time, and each chunk is fed to the digest; a read of nothing ends
    /// the scan.  Nothing of the container changes.
    pub fn compute_hash(&self) -> (result: Result<[u8; 16], PicoError>)
        requires
            self.wf(),
        ensures
            result matches Ok(digest) && digest@ == digest_of(self@.data()),
    {
        let mut hasher = Hasher::new();
        let mut buffer: Vec<u8> = vec![0u8; CHUNK_SIZE];
        let mut position: usize = 0;
        let mut more: bool = true;
        proof {
            self.lemma_data_fits();
        }
        while more
            invariant
                self.wf(),
                self@.offset + self@.data().len() <= usize::MAX,
                buffer@.len() == CHUNK_SIZE,
                position <= self@.data().len(),
                hasher@ == self@.data().take(position as int),
                !more ==> position == self@.data().len(),
            decreases self@.data().len() - position + (if more { 1int } else { 0int }),
        {
            let count = self.get(position, buffer.as_mut_slice())?;
            if count == 0 {
                more = false;
            } else {
                let chunk = vstd::slice::slice_subrange(buffer.as_slice(), 0, count);
                hasher.feed(chunk);
                position = position + count;
            }
        }
        assert(self@.data().take(position as int) =~= self@.data());
        Ok(hasher.finish())
    }

    /// Bring the header in the store up to date.
    ///
    /// If the hash is not valid, it is computed over the whole data region
    /// and becomes valid.  Then the header is written at the start of the
    /// store.  This is the only place where a stale hash is repaired.
    pub fn flush(&mut self) -> (result: Result<(), PicoError>)
        requires
            old(self).wf(),
        ensures
            result is Ok,
            final(self).wf(),
            final(self)@ == old(self)@.flushed(),
    {
        if !self.hash_valid {
            let digest = self.compute_hash()?;
            self.hash = digest;
            self.hash_valid = true;
        }
        self.write_header();
        Ok(())
    }

    /// Write the header as text in the given format, appended to `target`.
    pub fn dump_header(&self, target: &mut Vec<u8>, format: &HeaderFormat)
        requires
            self.wf(),
        ensures
            final(target)@ == old(target)@ + rendered(
                self@.header(),
                self@.metadata_length() as nat,
                *format,
            ),
    {
        render_header(target, &self.fields(), self.md_length, format);
    }

    /// The major and minor version recorded in the file.
    pub fn version(&self) -> (version: (u16, u16))
        ensures
            version == (self@.major, self@.minor),
    {
        (self.major, self.minor)
    }

    /// Absolute offset of the first data byte.
    pub fn offset(&self) -> (offset: u32)
        ensures
            offset == self@.offset,
    {
        self.offset
    }

    /// The hash held.  Nothing is computed: the hash may be stale until
    /// the next flush.
    pub fn hash(&self) -> (hash: [u8; 16])
        ensures
            hash@ == self@.hash,
    {
        self.hash
    }

    /// Whether the hash held is known to match the data.
    pub fn is_hash_valid(&self) -> (valid: bool)
        ensures
            valid == self@.hash_valid,
    {
        self.hash_valid
    }

    /// The cipher key.
    pub fn key(&self) -> (key: &Vec<u8>)
        ensures
            key@ == self@.key,
    {
        &self.key
    }

    /// Length of the metadata region.
    pub fn metadata_length(&self) -> (length: usize)
        requires
            self.wf(),
        ensures
            length == self@.metadata_length(),
    {
        self.md_length
    }

    /// The store that the container lives in.
    pub fn store(&self) -> (store: &ByteStore)
        ensures
            store@ == self@.store,
    {
        &self.store
    }

    /// Give up the container for its store.
    pub fn into_store(self) -> (store: ByteStore)
        ensures
            store@ == self@.store,
    {
        self.store
    }
}

/// Where nothing stands against creation, what it leaves is a well-formed
/// container whose hash is not valid.
pub proof fn lemma_created(store: Seq<u8>, key: Seq<u8>, reserve: u32)
    requires
        create_fault(key.len() as int, reserve) is None,
    ensures
        created(store, key, reserve).wf(),
        !created(store, key, reserve).hash_valid,
        created(store, key, reserve).metadata_length() == reserve,
{
    let view = created(store, key, reserve);
    assert(view.store.subrange(0, view.metadata_start()) =~= view.header().encoded());
}

/// What opens is a well-formed container whose hash is taken as valid.
pub proof fn lemma_opened(store: Seq<u8>)
    ensures
        opened(store) matches Ok(view) ==> view.wf() && view.hash_valid && view.store == store,
{
    lemma_encode_decoded(store);
}

/// What is put into the data region is what a read of the same position
/// and length gets back, for every key and every data; and the put leaves
/// the hash stale.
pub proof fn lemma_put_then_get(before: PicoView, position: int, plain: Seq<u8>)
    requires
        before.wf(),
        position >= 0,
    ensures
        ({
            let after = before.put(position, plain);
            &&& after.wf()
            &&& !after.hash_valid
            &&& readable(after.data().len() as int, position, plain.len() as int) == plain.len()
            &&& window(after.data(), position, plain.len() as int) == plain
        }),
{
    let after = before.put(position, plain);
    let cipher = crypt_seq(position, plain, before.key);
    lemma_written_keeps_prefix(
        before.store,
        before.offset + position,
        cipher,
        before.metadata_start(),
    );
    assert forall|i: int| 0 <= i < plain.len() implies #[trigger] window(
        after.data(),
        position,
        plain.len() as int,
    )[i] == plain[i] by {
        lemma_xor_twice(plain[i], keystream(before.key, position + i));
    }
}

/// A write to the metadata region is cut to what is left of the region, a
/// read of the same range gets back exactly the bytes that were written,
/// every other byte of the store reads as before, or as zero where the
/// store had not reached it, and neither the data nor the hash is touched.
pub proof fn lemma_metadata_round_trip(before: PicoView, start: int, bytes: Seq<u8>)
    requires
        before.wf(),
        start >= 0,
    ensures
        ({
            let count = before.metadata_count(start, bytes.len() as int);
            let after = before.put_metadata(start, bytes.take(count));
            let from = before.metadata_start() + start;
            &&& 0 <= count <= bytes.len()
            &&& count > 0 ==> start + count <= before.metadata_length()
            &&& after.wf()
            &&& after.header() == before.header()
            &&& after.hash_valid == before.hash_valid
            &&& after.data() == before.data()
            &&& readable(
                after.store.len() as int,
                from,
                after.metadata_count(start, bytes.len() as int),
            ) == count
            &&& window(after.store, from, count) == bytes.take(count)
            &&& forall|i: int|
                0 <= i < after.store.len() && !(from <= i < from + count)
                    ==> #[trigger] after.store[i] == if i < before.store.len() {
                    before.store[i]
                } else {
                    0u8
                }
        }),
{
    let count = before.metadata_count(start, bytes.len() as int);
    let from = before.metadata_start() + start;
    lemma_written_keeps_prefix(before.store, from, bytes.take(count), before.metadata_start());
}

/// A flush changes nothing but the hash and the header that records it:
/// the data and all that lies after the header stay as they were.  A
/// second flush changes nothing at all.
pub proof fn lemma_flush(before: PicoView)
    requires
        before.wf(),
    ensures
        ({
            let after = before.flushed();
            &&& after.wf()
            &&& after.hash_valid
            &&& after.data() == before.data()
            &&& after.store.len() == before.store.len()
            &&& after.store.skip(before.metadata_start()) == before.store.skip(
                before.metadata_start(),
            )
            &&& before.hash_valid ==> after == before
            &&& after.flushed() == after
        }),
{
    let after = before.flushed();
    let header = after.header().encoded();
    assert(after.store.subrange(0, after.metadata_start()) =~= header);
    if before.hash_valid {
        assert(after.store =~= before.store);
    }
    assert(after.flushed().store =~= after.store);
}

/// The hash that a flush computes over data just written is the digest of
/// the plain data, the header in the store records it, and a container
/// opened from that store holds the same hash over the same data, so that
/// computing the digest again gives the same value.
pub proof fn lemma_hash_stable(before: PicoView)
    requires
        before.wf(),
        !before.hash_valid,
    ensures
        ({
            let after = before.flushed();
            &&& after.hash == digest_of(before.data())
            &&& opened(after.store) == Ok::<PicoView, Fault>(after)
            &&& digest_of(after.data()) == after.hash
        }),
{
    let after = before.flushed();
    lemma_flush(before);
    let length = after.metadata_start();
    assert(after.store =~= after.header().encoded() + after.store.skip(length));
    lemma_decode_encoded(after.header(), after.store.skip(length));
}

/// A container that was created or opened can be opened again from its
/// store at any time, and is then found with the hash that its header
/// records and taken as valid.
pub proof fn lemma_reopen(view: PicoView)
    requires
        view.wf(),
    ensures
        opened(view.store) == Ok::<PicoView, Fault>(PicoView { hash_valid: true, ..view }),
{
    let length = view.metadata_start();
    assert(view.store =~= view.header().encoded() + view.store.skip(length));
    lemma_decode_encoded(view.header(), view.store.skip(length));
}

/// A write at or after `keep` leaves the first `keep` bytes of a store that
/// has them as they were.
pub proof fn lemma_written_keeps_prefix(store: Seq<u8>, offset: int, data: Seq<u8>, keep: int)
    requires
        0 <= keep <= offset,
        keep <= store.len(),
    ensures
        written(store, offset, data).len() >= store.len(),
        written(store, offset, data).subrange(0, keep) == store.subrange(0, keep),
{
}

} // verus!
