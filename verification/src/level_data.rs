//! Framing of the level store: a text in which every line is the record of one
//! level, line `n` belonging to level `n`.
//!
//! The store is handled as bytes. A line break is a single byte that never
//! occurs inside the encoding of another character, so cutting the bytes at
//! line breaks cuts the text at the same places.

use vstd::prelude::*;
use vstd::slice::slice_subrange;

verus! {

/// The byte that ends a record.
pub const NEWLINE: u8 = 10;

/// The records of `data`: the pieces between its line breaks, in order.
///
/// A store always has at least one record; a store that ends in a line break
/// has an empty last record.
pub open spec fn records(data: Seq<u8>) -> Seq<Seq<u8>>
    decreases data.len(),
{
    if data.len() == 0 {
        seq![Seq::<u8>::empty()]
    } else {
        let before = records(data.drop_last());
        if data.last() == NEWLINE {
            before.push(Seq::<u8>::empty())
        } else {
            before.drop_last().push(before.last().push(data.last()))
        }
    }
}

/// Number of line breaks in `data`.
pub open spec fn newline_count(data: Seq<u8>) -> nat
    decreases data.len(),
{
    if data.len() == 0 {
        0
    } else {
        newline_count(data.drop_last()) + if data.last() == NEWLINE {
            1nat
        } else {
            0nat
        }
    }
}

/// The pieces of `parts` written one after the other with a line break
/// between neighbours.
pub open spec fn joined(parts: Seq<Seq<u8>>) -> Seq<u8>
    decreases parts.len(),
{
    if parts.len() == 0 {
        Seq::<u8>::empty()
    } else if parts.len() == 1 {
        parts[0]
    } else {
        joined(parts.drop_last()).push(NEWLINE) + parts.last()
    }
}

/// A store has one record more than it has line breaks.
pub proof fn lemma_record_count(data: Seq<u8>)
    ensures
        records(data).len() == newline_count(data) + 1,
    decreases data.len(),
{
    if data.len() > 0 {
        lemma_record_count(data.drop_last());
    }
}

/// No record holds a line break.
pub proof fn lemma_records_hold_no_newline(data: Seq<u8>, index: int, at: int)
    requires
        0 <= index < records(data).len(),
        0 <= at < records(data)[index].len(),
    ensures
        records(data)[index][at] != NEWLINE,
    decreases data.len(),
{
    if data.len() > 0 {
        let shorter = data.drop_last();
        lemma_record_count(shorter);
        if data.last() == NEWLINE {
            lemma_records_hold_no_newline(shorter, index, at);
        } else if index < records(shorter).len() - 1 {
            lemma_records_hold_no_newline(shorter, index, at);
        } else if at < records(shorter).last().len() {
            lemma_records_hold_no_newline(shorter, index, at);
        }
    }
}

/// Writing the records of a store one after the other, with a line break
/// between neighbours, gives the store back.
pub proof fn lemma_joined_records(data: Seq<u8>)
    ensures
        joined(records(data)) == data,
    decreases data.len(),
{
    if data.len() == 0 {
        assert(joined(records(data)) =~= data);
    } else {
        let shorter = data.drop_last();
        let before = records(shorter);
        lemma_joined_records(shorter);
        lemma_record_count(shorter);
        if data.last() == NEWLINE {
            let now = before.push(Seq::<u8>::empty());
            assert(now.drop_last() =~= before);
            assert(joined(now) =~= data);
        } else {
            let grown = before.last().push(data.last());
            let now = before.drop_last().push(grown);
            assert(now.drop_last() =~= before.drop_last());
            if before.len() == 1 {
                assert(joined(now) =~= data);
            } else {
                assert(joined(now) =~= joined(before).push(data.last()));
                assert(joined(now) =~= data);
            }
        }
    }
}

/// Every record but the last of the first `cut` bytes of a store is a record
/// of the whole store, under the same number.
pub proof fn lemma_closed_records_stay(data: Seq<u8>, cut: int, index: int)
    requires
        0 <= cut <= data.len(),
        0 <= index < records(data.subrange(0, cut)).len() - 1,
    ensures
        index < records(data).len() - 1,
        records(data)[index] == records(data.subrange(0, cut))[index],
    decreases data.len() - cut,
{
    if cut == data.len() {
        assert(data.subrange(0, cut) =~= data);
    } else {
        let longer = data.subrange(0, cut + 1);
        assert(longer.drop_last() =~= data.subrange(0, cut));
        lemma_record_count(data.subrange(0, cut));
        lemma_closed_records_stay(data, cut + 1, index);
    }
}

/// The record of level `level_ind` in the store `data`, or `None` where the
/// store has no record of that number.
pub fn level_record<'a>(data: &'a [u8], level_ind: usize) -> (record: Option<&'a [u8]>)
    ensures
        record is Some <==> level_ind < records(data@).len(),
        record matches Some(found) ==> found@ == records(data@)[level_ind as int],
{
    let mut start: usize = 0;
    let mut line: usize = 0;
    let mut at: usize = 0;
    proof {
        assert(data@.subrange(0, 0) =~= Seq::<u8>::empty());
    }
    while at < data.len()
        invariant
            0 <= start <= at <= data.len(),
            line <= level_ind,
            line <= at,
            records(data@.subrange(0, at as int)).len() == line + 1,
            records(data@.subrange(0, at as int)).last() == data@.subrange(start as int, at as int),
        decreases data.len() - at,
    {
        let ghost seen = data@.subrange(0, at as int);
        let ghost longer = data@.subrange(0, at + 1);
        proof {
            assert(longer.drop_last() =~= seen);
            assert(longer.last() == data@[at as int]);
        }
        if data[at] == NEWLINE {
            if line == level_ind {
                proof {
                    assert(records(longer).drop_last() =~= records(seen));
                    lemma_closed_records_stay(data@, at + 1, line as int);
                }
                return Some(slice_subrange(data, start, at));
            }
            line = line + 1;
            start = at + 1;
            proof {
                assert(data@.subrange(start as int, start as int) =~= Seq::<u8>::empty());
            }
        } else {
            proof {
                assert(data@.subrange(start as int, at + 1) =~= data@.subrange(
                    start as int,
                    at as int,
                ).push(data@[at as int]));
            }
        }
        at = at + 1;
    }
    proof {
        assert(data@.subrange(0, at as int) =~= data@);
    }
    if line == level_ind {
        Some(slice_subrange(data, start, at))
    } else {
        None
    }
}

} // verus!
