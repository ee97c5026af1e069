//! The growable, exclusively held byte buffer backing one device.
//!
//! The host serializes every operation on one store behind a single
//! exclusive lock; each operation here therefore takes the store exclusively
//! (`&self` or `&mut self`), which models that serialization directly.

use vstd::prelude::*;
use vstd::pervasive::VecAdditionalExecFns;

use crate::errors::VdevError;

verus! {

/// What a bounded read observes of the stored bytes: at most `max_len`
/// bytes starting at `offset`, cut short at the end of the data. An offset
/// at or past the stored length yields the empty sequence, never a failure.
pub open spec fn read_spec(s: Seq<u8>, offset: int, max_len: int) -> Seq<u8>
    recommends
        0 <= offset,
        0 <= max_len,
{
    let start = if offset < s.len() as int {
        offset
    } else {
        s.len() as int
    };
    let end = if offset + max_len < s.len() as int {
        offset + max_len
    } else {
        s.len() as int
    };
    s.subrange(start, end)
}

/// What the stored bytes become after writing `data` at `offset`: the
/// buffer grows to cover the written range if needed, any gap between the
/// old length and `offset` is zero-filled, and bytes outside the written
/// range keep their old values.
pub open spec fn write_spec(s: Seq<u8>, offset: int, data: Seq<u8>) -> Seq<u8>
    recommends
        0 <= offset,
{
    let new_len = if offset + data.len() as int > s.len() as int {
        offset + data.len() as int
    } else {
        s.len() as int
    };
    Seq::new(
        new_len as nat,
        |i: int|
            if offset <= i && i < offset + data.len() as int {
                data[i - offset]
            } else if i < s.len() as int {
                s[i]
            } else {
                0u8
            },
    )
}

/// The unit of storage for one device: an ordered, variable-length sequence
/// of bytes. It is created empty, grows (never shrinks implicitly) on a
/// write past the current length, and is cleared only explicitly.
pub struct ByteStore {
    contents: Vec<u8>,
}

impl View for ByteStore {
    type V = Seq<u8>;

    closed spec fn view(&self) -> Seq<u8> {
        self.contents@
    }
}

impl ByteStore {
    /// A fresh store holds no bytes at all.
    pub fn new() -> (store: ByteStore)
        ensures
            store@ == Seq::<u8>::empty(),
    {
        ByteStore { contents: Vec::new() }
    }

    /// The byte count actually addressable by a read.
    pub fn length(&self) -> (n: usize)
        ensures
            n == self@.len(),
    {
        self.contents.len()
    }

    /// Read at most `max_len` bytes starting at `offset`. Fewer bytes come
    /// back when fewer are available (a short read); an offset at or past
    /// the stored length yields zero bytes. Out-of-range offsets are not a
    /// fault on read.
    pub fn read(&self, offset: usize, max_len: usize) -> (bytes: Vec<u8>)
        ensures
            bytes@ == read_spec(self@, offset as int, max_len as int),
    {
        let stored = self.contents.len();
        if offset >= stored {
            let bytes: Vec<u8> = Vec::new();
            proof {
                assert(bytes@ =~= read_spec(self@, offset as int, max_len as int));
            }
            return bytes;
        }
        let available = stored - offset;
        let count = if max_len < available {
            max_len
        } else {
            available
        };
        let mut bytes: Vec<u8> = Vec::new();
        let mut k: usize = 0;
        while k < count
            invariant
                stored == self@.len(),
                offset < stored,
                count <= stored - offset,
                k <= count,
                bytes@ =~= self@.subrange(offset as int, offset + k),
            decreases count - k,
        {
            bytes.push(self.contents[offset + k]);
            k += 1;
        }
        proof {
            assert(bytes@ =~= read_spec(self@, offset as int, max_len as int));
        }
        bytes
    }

    /// Write `data` at `offset`. When the written range ends past the
    /// current length the buffer grows to cover it, zero-filling any gap
    /// between the old length and `offset`; the full request is applied or
    /// nothing is. Fails only when `offset + data.len()` exceeds the
    /// representable address range, leaving the store unchanged.
    pub fn write(&mut self, offset: usize, data: &[u8]) -> (result: Result<usize, VdevError>)
        ensures
            result is Ok <==> offset + data@.len() <= usize::MAX,
            result is Ok ==> result->Ok_0 == data@.len()
                && final(self)@ == write_spec(old(self)@, offset as int, data@),
            result is Err ==> result->Err_0 == VdevError::Overflow
                && final(self)@ == old(self)@,
    {
        let len = data.len();
        if usize::MAX - offset < len {
            return Err(VdevError::Overflow);
        }
        let new_len = offset + len;
        let ghost base = self.contents@;
        while self.contents.len() < new_len
            invariant
                new_len == offset + data@.len(),
                base.len() <= self.contents@.len(),
                self.contents@.len() <= base.len() || self.contents@.len() <= new_len,
                forall|i: int| 0 <= i < base.len() ==> self.contents@[i] == base[i],
                forall|i: int| base.len() <= i < self.contents@.len() ==> self.contents@[i] == 0u8,
            decreases new_len - self.contents.len(),
        {
            self.contents.push(0u8);
        }
        let ghost grown = self.contents@;
        let mut k: usize = 0;
        while k < len
            invariant
                len == data@.len(),
                new_len == offset + len,
                new_len <= grown.len(),
                base.len() <= grown.len(),
                grown.len() <= base.len() || grown.len() <= new_len,
                forall|i: int| 0 <= i < base.len() ==> grown[i] == base[i],
                forall|i: int| base.len() <= i < grown.len() ==> grown[i] == 0u8,
                k <= len,
                self.contents@.len() == grown.len(),
                forall|i: int| 0 <= i < offset ==> self.contents@[i] == grown[i],
                forall|i: int| offset <= i < offset + k ==> self.contents@[i] == data@[i - offset],
                forall|i: int| offset + k <= i < grown.len() ==> self.contents@[i] == grown[i],
            decreases len - k,
        {
            self.contents.set(offset + k, data[k]);
            k += 1;
        }
        proof {
            let written = write_spec(base, offset as int, data@);
            assert(self.contents@.len() == written.len());
            assert forall|i: int| 0 <= i < written.len() implies self.contents@[i] == written[i] by {
                if offset <= i < offset + data@.len() {
                    assert(self.contents@[i] == data@[i - offset]);
                } else {
                    assert(self.contents@[i] == grown[i]);
                }
            }
            assert(self.contents@ =~= written);
        }
        Ok(len)
    }

    /// Reset the stored length to zero; only the length is observable, so
    /// whether underlying capacity is released does not matter.
    pub fn clear(&mut self)
        ensures
            final(self)@ == Seq::<u8>::empty(),
    {
        self.contents.clear();
    }
}

} // verus!
