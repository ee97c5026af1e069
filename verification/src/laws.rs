//! The policy's guarantees, stated and proved once over the byte-level
//! model that every read and write contract speaks of.

use vstd::prelude::*;

use crate::store::read_spec;
use crate::store::write_spec;

verus! {

/// Truncate-on-open: a read immediately after the store was cleared
/// yields zero bytes, whatever was stored before and whatever offset and
/// bound the reader picks.
pub proof fn lemma_read_after_truncate(offset: int, max_len: int)
    requires
        0 <= offset,
        0 <= max_len,
    ensures
        read_spec(Seq::<u8>::empty(), offset, max_len) == Seq::<u8>::empty(),
{
    assert(read_spec(Seq::<u8>::empty(), offset, max_len) =~= Seq::<u8>::empty());
}

/// Write/read round trip: reading back exactly the written range returns
/// exactly the written bytes.
pub proof fn lemma_write_read_round_trip(s: Seq<u8>, offset: int, data: Seq<u8>)
    requires
        0 <= offset,
    ensures
        read_spec(write_spec(s, offset, data), offset, data.len() as int) == data,
{
    assert(read_spec(write_spec(s, offset, data), offset, data.len() as int) =~= data);
}

/// Sparse-write zero-fill: writing past the current length leaves the gap
/// between the old length and the write offset reading as all zeros.
pub proof fn lemma_sparse_gap_zero_filled(s: Seq<u8>, offset: int, data: Seq<u8>)
    requires
        s.len() < offset,
    ensures
        read_spec(write_spec(s, offset, data), s.len() as int, offset - s.len()) == Seq::new(
            (offset - s.len()) as nat,
            |i: int| 0u8,
        ),
{
    assert(read_spec(write_spec(s, offset, data), s.len() as int, offset - s.len()) =~= Seq::new(
        (offset - s.len()) as nat,
        |i: int| 0u8,
    ));
}

/// Reading at or past the stored length yields an empty result — by the
/// read contract it is never an error.
pub proof fn lemma_read_past_end_empty(s: Seq<u8>, offset: int, max_len: int)
    requires
        s.len() <= offset,
        0 <= max_len,
    ensures
        read_spec(s, offset, max_len) == Seq::<u8>::empty(),
{
    assert(read_spec(s, offset, max_len) =~= Seq::<u8>::empty());
}

/// No lost updates between writers of disjoint ranges: after a write at
/// `first_off` and then a write at `second_off` whose ranges do not
/// overlap, each range reads back exactly its own data — the order the
/// lock serialized them in does not matter to either writer.
pub proof fn lemma_disjoint_writes_both_intact(
    s: Seq<u8>,
    first_off: int,
    first_data: Seq<u8>,
    second_off: int,
    second_data: Seq<u8>,
)
    requires
        0 <= first_off,
        0 <= second_off,
        first_off + first_data.len() <= second_off || second_off + second_data.len() <= first_off,
    ensures
        read_spec(
            write_spec(write_spec(s, first_off, first_data), second_off, second_data),
            first_off,
            first_data.len() as int,
        ) == first_data,
        read_spec(
            write_spec(write_spec(s, first_off, first_data), second_off, second_data),
            second_off,
            second_data.len() as int,
        ) == second_data,
{
    let once = write_spec(s, first_off, first_data);
    let twice = write_spec(once, second_off, second_data);
    assert(read_spec(twice, first_off, first_data.len() as int) =~= first_data);
    assert(read_spec(twice, second_off, second_data.len() as int) =~= second_data);
}

} // verus!
