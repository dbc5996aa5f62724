//! Lists of byte strings: joining them with a separator, and finding the one
//! value that all of them share.

use crate::headers::{byte_rows, is_value_bytes};
use itertools::Itertools;
use vstd::prelude::*;

verus! {

/// The items with `separator` put between each two neighbours.
pub open spec fn interspersed(items: Seq<Seq<u8>>, separator: Seq<u8>) -> Seq<Seq<u8>> {
    if items.len() == 0 {
        Seq::empty()
    } else {
        Seq::new(
            (2 * items.len() - 1) as nat,
            |i: int|
                if i % 2 == 0 {
                    items[i / 2]
                } else {
                    separator
                },
        )
    }
}

/// The rows written one after the other.
pub open spec fn flat(rows: Seq<Seq<u8>>) -> Seq<u8>
    decreases rows.len(),
{
    if rows.len() == 0 {
        Seq::empty()
    } else {
        flat(rows.drop_last()) + rows.last()
    }
}

/// The values in their order, with `separator` between each two neighbours
/// and none before the first or after the last.
pub open spec fn joined(values: Seq<Seq<u8>>, separator: Seq<u8>) -> Seq<u8>
    decreases values.len(),
{
    if values.len() == 0 {
        Seq::empty()
    } else if values.len() == 1 {
        values[0]
    } else {
        joined(values.drop_last(), separator) + separator + values.last()
    }
}

/// The value that every item equals; `None` for no items or for items that
/// differ.
pub open spec fn common_value(values: Seq<Seq<u8>>) -> Option<Seq<u8>> {
    if values.len() > 0 && (forall|i: int| 0 <= i < values.len() ==> #[trigger] values[i] == values.first()) {
        Some(values[0])
    } else {
        None
    }
}

/// `Itertools::intersperse`: the separator is put between each two
/// neighbouring rows.
#[verifier::external_body]
pub(crate) fn intersperse_rows(rows: Vec<Vec<u8>>, separator: Vec<u8>) -> (out: Vec<Vec<u8>>)
    ensures
        byte_rows(out@) == interspersed(byte_rows(rows@), separator@),
{
    Itertools::intersperse(rows.into_iter(), separator).collect()
}

/// `Itertools::all_equal_value`: the first row where there is one and all
/// rows equal it, nothing otherwise.
#[verifier::external_body]
pub(crate) fn all_equal_value(rows: Vec<Vec<u8>>) -> (common: Option<Vec<u8>>)
    ensures
        match common {
            Some(value) => common_value(byte_rows(rows@)) == Some(value@),
            None => common_value(byte_rows(rows@)).is_none(),
        },
{
    rows.into_iter().all_equal_value().ok()
}

/// Writing interspersed rows in a row is joining them.
pub proof fn lemma_flat_interspersed(values: Seq<Seq<u8>>, separator: Seq<u8>)
    ensures
        flat(interspersed(values, separator)) == joined(values, separator),
    decreases values.len(),
{
    let all = interspersed(values, separator);
    if values.len() == 0 {
    } else if values.len() == 1 {
        assert(all.drop_last() =~= Seq::<Seq<u8>>::empty());
        assert(flat(all.drop_last()) =~= Seq::<u8>::empty());
        assert(flat(all) =~= values[0]);
    } else {
        let front = values.drop_last();
        lemma_flat_interspersed(front, separator);
        let inner = interspersed(front, separator);
        assert(all.drop_last().drop_last() =~= inner);
        assert(all.last() == values.last());
        assert(all.drop_last().last() == separator);
        assert(flat(all) == flat(all.drop_last()) + all.last());
        assert(flat(all.drop_last()) == flat(inner) + separator);
    }
}

/// Appends the bytes of every row to one vector.
pub fn concat_rows(rows: &Vec<Vec<u8>>) -> (out: Vec<u8>)
    ensures
        out@ == flat(byte_rows(rows@)),
{
    let mut out: Vec<u8> = Vec::new();
    let mut i: usize = 0;
    while i < rows.len()
        invariant
            i <= rows.len(),
            out@ == flat(byte_rows(rows@).take(i as int)),
        decreases rows.len() - i,
    {
        let row = &rows[i];
        let ghost before = out@;
        let mut k: usize = 0;
        while k < row.len()
            invariant
                k <= row.len(),
                out@ == before + row@.take(k as int),
            decreases row.len() - k,
        {
            out.push(row[k]);
            k += 1;
            proof {
                assert(row@.take(k as int) =~= row@.take(k - 1).push(row@[k - 1]));
                assert(out@ =~= before + row@.take(k as int));
            }
        }
        proof {
            assert(row@.take(k as int) =~= row@);
            let upto = byte_rows(rows@).take(i + 1);
            assert(upto.drop_last() =~= byte_rows(rows@).take(i as int));
            assert(upto.last() == row@);
        }
        i += 1;
    }
    proof {
        assert(byte_rows(rows@).take(rows.len() as int) =~= byte_rows(rows@));
    }
    out
}

/// Joins the values with the separator between each two neighbours.
pub fn join_values(values: Vec<Vec<u8>>, separator: Vec<u8>) -> (out: Vec<u8>)
    ensures
        out@ == joined(byte_rows(values@), separator@),
{
    proof {
        lemma_flat_interspersed(byte_rows(values@), separator@);
    }
    let rows = intersperse_rows(values, separator);
    concat_rows(&rows)
}

/// Whether two byte strings are the same.
pub fn same_bytes(left: &[u8], right: &[u8]) -> (same: bool)
    ensures
        same == (left@ == right@),
{
    if left.len() != right.len() {
        return false;
    }
    let mut i: usize = 0;
    while i < left.len()
        invariant
            i <= left.len(),
            left.len() == right.len(),
            forall|j: int| 0 <= j < i ==> left@[j] == right@[j],
        decreases left.len() - i,
    {
        if left[i] != right[i] {
            return false;
        }
        i += 1;
    }
    proof {
        assert(left@ =~= right@);
    }
    true
}

/// Joining values that are each acceptable in a header, with a separator that
/// is, gives bytes that are acceptable too.
pub proof fn lemma_joined_keeps_bytes(values: Seq<Seq<u8>>, separator: Seq<u8>)
    requires
        forall|i: int| 0 <= i < values.len() ==> is_value_bytes(#[trigger] values[i]),
        is_value_bytes(separator),
    ensures
        is_value_bytes(joined(values, separator)),
    decreases values.len(),
{
    if values.len() >= 2 {
        lemma_joined_keeps_bytes(values.drop_last(), separator);
    }
}

} // verus!
