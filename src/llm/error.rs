//! Errors that a model reports before any computation proceeds.

use vstd::prelude::*;

verus! {

/// Why a model, a layer or an input was refused.
#[derive(Debug, Clone, Copy, PartialEq, Eq, Structural)]
pub enum LlmError {
    /// The dimensions do not fit together (a width that the number of heads
    /// does not divide, a zero dimension, a mask of the wrong shape).
    ConfigurationError,
    /// The token id at `position` is not below the vocabulary size.
    IndexOutOfRange { position: usize, token_id: usize },
    /// The sequence holds `len` tokens, more than `max_seq_len`.
    SequenceTooLong { len: usize, max_seq_len: usize },
}

} // verus!
