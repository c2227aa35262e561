//! The causal mask: position `i` may attend to positions `0 ..= i` only.

use vstd::prelude::*;

verus! {

/// Position `i` must not attend to position `j`: `j` lies in its future.
pub open spec fn is_masked(i: int, j: int) -> bool {
    j > i
}

/// The causal mask for `seq_len` positions, one row per position: entry
/// `(i, j)` is `true` where attention from `i` to `j` is suppressed.
pub fn causal_mask(seq_len: usize) -> (r: Vec<Vec<bool>>)
    ensures
        r@.len() == seq_len,
        forall|i: int| 0 <= i < seq_len ==> (#[trigger] r@[i])@.len() == seq_len,
        forall|i: int, j: int|
            0 <= i < seq_len && 0 <= j < seq_len ==> #[trigger] r@[i]@[j] == is_masked(i, j),
{
    let mut rows: Vec<Vec<bool>> = Vec::new();
    let mut i: usize = 0;
    while i < seq_len
        invariant
            i <= seq_len,
            rows@.len() == i,
            forall|a: int| 0 <= a < i ==> (#[trigger] rows@[a])@.len() == seq_len,
            forall|a: int, b: int|
                0 <= a < i && 0 <= b < seq_len ==> #[trigger] rows@[a]@[b] == is_masked(a, b),
        decreases seq_len - i,
    {
        let mut row: Vec<bool> = Vec::new();
        let mut j: usize = 0;
        while j < seq_len
            invariant
                j <= seq_len,
                row@.len() == j,
                forall|b: int| 0 <= b < j ==> row@[b] == is_masked(i as int, b),
            decreases seq_len - j,
        {
            row.push(j > i);
            j += 1;
        }
        rows.push(row);
        i += 1;
    }
    rows
}

} // verus!
