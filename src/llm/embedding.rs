//! Token ids and positions: what an embedding lookup and the positional
//! table accept, and the layout of the sinusoidal table.

use vstd::prelude::*;

use crate::llm::error::LlmError;

verus! {

/// Every id names a row of a table with `vocab_size` rows.
pub open spec fn ids_in_range(ids: Seq<usize>, vocab_size: int) -> bool {
    forall|k: int| 0 <= k < ids.len() ==> ids[k] < vocab_size
}

/// Checks that every token id indexes an embedding table of `vocab_size`
/// rows; otherwise reports the first id out of range.
pub fn check_token_ids(ids: &[usize], vocab_size: usize) -> (r: Result<(), LlmError>)
    ensures
        r is Ok <==> ids_in_range(ids@, vocab_size as int),
        r matches Err(e) ==> e matches LlmError::IndexOutOfRange { position, token_id } && {
            &&& position < ids@.len()
            &&& token_id == ids@[position as int]
            &&& token_id >= vocab_size
            &&& ids_in_range(ids@.take(position as int), vocab_size as int)
        },
{
    let mut k: usize = 0;
    while k < ids.len()
        invariant
            k <= ids@.len(),
            ids_in_range(ids@.take(k as int), vocab_size as int),
        decreases ids@.len() - k,
    {
        if ids[k] >= vocab_size {
            return Err(LlmError::IndexOutOfRange { position: k, token_id: ids[k] });
        }
        assert(ids@.take(k + 1) =~= ids@.take(k as int).push(ids@[k as int]));
        k += 1;
    }
    assert(ids@.take(k as int) =~= ids@);
    Ok(())
}

/// Checks that a sequence of `len` positions fits a positional table of
/// `max_seq_len` rows.
pub fn check_sequence_length(len: usize, max_seq_len: usize) -> (r: Result<(), LlmError>)
    ensures
        r is Ok <==> len <= max_seq_len,
        len > max_seq_len ==> r == Err::<(), LlmError>(
            LlmError::SequenceTooLong { len, max_seq_len },
        ),
{
    if len > max_seq_len {
        Err(LlmError::SequenceTooLong { len, max_seq_len })
    } else {
        Ok(())
    }
}

/// The exponent `2i` of the frequency of column `col` of the positional
/// table: the value there is a function of `p / 10000^(2i / d_model)`.
pub open spec fn frequency_exponent(col: int) -> int {
    col - col % 2
}

/// Column `col` of the positional table holds a sine, else a cosine.
pub open spec fn is_sine_column(col: int) -> bool {
    col % 2 == 0
}

/// The layout of column `col` of the positional table: the exponent `2i`
/// of its frequency, and whether it holds a sine (even columns) or a
/// cosine (odd columns) of the same frequency as the column before.
pub fn positional_column(col: usize) -> (r: (usize, bool))
    ensures
        r.0 == frequency_exponent(col as int),
        r.1 == is_sine_column(col as int),
{
    (col - col % 2, col % 2 == 0)
}

} // verus!
