//! The byte store that a Pico container lives in.
//!
//! A store is a growable run of bytes addressed by absolute offset.  Reading
//! past the end yields nothing; writing past the end grows the store, and
//! any gap between the old end and the write reads as zero.

use vstd::prelude::*;

verus! {

/// The number of bytes that a read of at most `want` bytes at `offset`
/// yields from a store of `len` bytes: what is left after `offset`, capped
/// at `want`.
pub open spec fn readable(len: int, offset: int, want: int) -> int {
    if offset >= len {
        0
    } else if len - offset < want {
        len - offset
    } else {
        want
    }
}

/// The `count` bytes of a store that start at `offset`.
pub open spec fn window(store: Seq<u8>, offset: int, count: int) -> Seq<u8>
    recommends
        0 <= offset,
        0 <= count,
        count == 0 || offset + count <= store.len(),
{
    Seq::new(count as nat, |i: int| store[offset + i])
}

/// The content of a store after `data` is written at `offset`.
///
/// An empty write changes nothing.  Otherwise the bytes of `data` replace
/// what was at `offset`, the store grows to hold them, and any byte between
/// the old end and `offset` is zero.
pub open spec fn written(store: Seq<u8>, offset: int, data: Seq<u8>) -> Seq<u8>
    recommends
        offset >= 0,
{
    if data.len() == 0 {
        store
    } else {
        Seq::new(
            if store.len() > offset + data.len() {
                store.len()
            } else {
                (offset + data.len()) as nat
            },
            |i: int|
                if offset <= i < offset + data.len() {
                    data[i - offset]
                } else if i < store.len() {
                    store[i]
                } else {
                    0u8
                },
        )
    }
}

/// Read into `buffer` from `offset` of `bytes`.
///
/// Fills `buffer` from its start with as many bytes as `bytes` has at
/// `offset`, at most `buffer.len()`, and returns the count.  The rest of
/// `buffer` is left alone.  A return of 0 for a buffer that is not empty
/// means that `offset` is at or past the end.
pub fn read_from(bytes: &[u8], offset: usize, buffer: &mut [u8]) -> (count: usize)
    ensures
        count == readable(bytes@.len() as int, offset as int, old(buffer)@.len() as int),
        final(buffer)@ == window(bytes@, offset as int, count as int) + old(buffer)@.skip(
            count as int,
        ),
{
    let len: usize = bytes.len();
    let want: usize = buffer.len();
    let count: usize = if offset >= len {
        0
    } else if len - offset < want {
        len - offset
    } else {
        want
    };
    let mut index: usize = 0;
    while index < count
        invariant
            index <= count,
            count <= want,
            want == buffer@.len(),
            buffer@.len() == old(buffer)@.len(),
            len == bytes@.len(),
            count > 0 ==> offset + count <= len,
            forall|i: int| 0 <= i < index ==> buffer@[i] == bytes@[offset + i],
            forall|i: int| index <= i < want ==> buffer@[i] == old(buffer)@[i],
        decreases count - index,
    {
        buffer[index] = bytes[offset + index];
        index = index + 1;
    }
    count
}

/// An in-memory seekable byte store: the bytes of one Pico file.
pub struct ByteStore {
    bytes: Vec<u8>,
}

impl View for ByteStore {
    type V = Seq<u8>;

    closed spec fn view(&self) -> Seq<u8> {
        self.bytes@
    }
}

impl ByteStore {
    /// An empty store.
    pub fn new() -> (store: ByteStore)
        ensures
            store@ == Seq::<u8>::empty(),
    {
        ByteStore { bytes: Vec::new() }
    }

    /// A store that holds exactly `bytes`.
    pub fn from_bytes(bytes: Vec<u8>) -> (store: ByteStore)
        ensures
            store@ == bytes@,
    {
        ByteStore { bytes }
    }

    /// Give up the store for the bytes it holds.
    pub fn into_bytes(self) -> (bytes: Vec<u8>)
        ensures
            bytes@ == self@,
    {
        self.bytes
    }

    /// The bytes that the store holds.
    pub fn as_bytes(&self) -> (bytes: &[u8])
        ensures
            bytes@ == self@,
    {
        self.bytes.as_slice()
    }

    /// A store holds no more bytes than can be addressed.
    pub proof fn lemma_len(&self)
        ensures
            self@.len() <= usize::MAX,
    {
        assert(self.bytes@.len() == self.bytes.len());
    }

    /// The number of bytes in the store.
    pub fn len(&self) -> (len: usize)
        ensures
            len == self@.len(),
    {
        self.bytes.len()
    }

    /// Read into `buffer` from absolute `offset`.
    ///
    /// Fills `buffer` from its start with as many bytes as the store has at
    /// `offset`, at most `buffer.len()`, and returns the count.  The rest of
    /// `buffer` is left alone.  A return of 0 for a buffer that is not empty
    /// means that `offset` is at or past the end.
    pub fn read_at(&self, offset: usize, buffer: &mut [u8]) -> (count: usize)
        ensures
            count == readable(self@.len() as int, offset as int, old(buffer)@.len() as int),
            final(buffer)@ == window(self@, offset as int, count as int) + old(buffer)@.skip(
                count as int,
            ),
    {
        read_from(self.bytes.as_slice(), offset, buffer)
    }

    /// Write `data` at absolute `offset`, growing the store as needed.
    ///
    /// Returns the number of bytes written, which is all of `data`.  The one
    /// write that cannot be served is one whose end lies beyond the largest
    /// offset that the machine can address: it returns `None` and leaves the
    /// store as it was.
    pub fn write_at(&mut self, offset: usize, data: &[u8]) -> (done: Option<usize>)
        ensures
            match done {
                Some(count) => {
                    &&& offset + data@.len() <= usize::MAX
                    &&& count == data@.len()
                    &&& final(self)@ == written(old(self)@, offset as int, data@)
                },
                None => {
                    &&& offset + data@.len() > usize::MAX
                    &&& final(self)@ == old(self)@
                },
            },
    {
        let count: usize = data.len();
        if count == 0 {
            return Some(0);
        }
        if count > usize::MAX - offset {
            return None;
        }
        while self.bytes.len() < offset
            invariant
                old(self)@.len() <= self.bytes@.len(),
                self.bytes@.len() <= offset || self.bytes@.len() == old(self)@.len(),
                forall|i: int| 0 <= i < old(self)@.len() ==> self.bytes@[i] == old(self)@[i],
                forall|i: int| old(self)@.len() <= i < self.bytes@.len() ==> self.bytes@[i] == 0,
            decreases offset - self.bytes@.len(),
        {
            self.bytes.push(0u8);
        }
        let ghost padded = self.bytes@;
        let mut index: usize = 0;
        while index < count
            invariant
                index <= count,
                padded.len() == if old(self)@.len() > offset {
                    old(self)@.len()
                } else {
                    offset as nat
                },
                forall|i: int| 0 <= i < old(self)@.len() ==> padded[i] == old(self)@[i],
                forall|i: int| old(self)@.len() <= i < padded.len() ==> padded[i] == 0,
                count == data@.len(),
                offset + count <= usize::MAX,
                padded.len() >= offset,
                self.bytes@.len() == if padded.len() > offset + index {
                    padded.len()
                } else {
                    (offset + index) as nat
                },
                forall|i: int|
                    offset <= i < offset + index ==> #[trigger] self.bytes@[i] == data@[i - offset],
                forall|i: int|
                    0 <= i < self.bytes@.len() && !(offset <= i < offset + index)
                        ==> #[trigger] self.bytes@[i] == padded[i],
            decreases count - index,
        {
            if offset + index < self.bytes.len() {
                self.bytes[offset + index] = data[index];
            } else {
                self.bytes.push(data[index]);
            }
            index = index + 1;
        }
        Some(count)
    }
}

} // verus!
