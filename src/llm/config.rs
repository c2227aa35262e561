//! The configuration of a language model, checked once at construction,
//! and the check of an input sequence against it.

use vstd::prelude::*;

use crate::llm::attn::{heads_fit, MultiHeadLayout};
use crate::llm::embedding::{check_sequence_length, check_token_ids, ids_in_range};
use crate::llm::error::LlmError;

verus! {

/// The six sizes that fix every weight shape of a model.
#[derive(Debug, Clone, Copy, PartialEq, Eq, Structural)]
pub struct ModelConfig {
    pub vocab_size: usize,
    pub d_model: usize,
    pub max_seq_len: usize,
    pub num_blocks: usize,
    pub num_heads: usize,
    pub d_ff: usize,
}

/// All six sizes are positive and the heads divide the model width.
pub open spec fn valid_config(c: ModelConfig) -> bool {
    &&& c.vocab_size > 0
    &&& c.d_model > 0
    &&& c.max_seq_len > 0
    &&& c.num_blocks > 0
    &&& c.d_ff > 0
    &&& heads_fit(c.d_model as int, c.num_heads as int)
}

/// A forward pass may run on `ids`: the sequence fits the positional table
/// and every id lies in the vocabulary.
pub open spec fn input_accepted(c: ModelConfig, ids: Seq<usize>) -> bool {
    ids.len() <= c.max_seq_len && ids_in_range(ids, c.vocab_size as int)
}

impl ModelConfig {
    /// A configuration of the six sizes, refused with a configuration
    /// error unless all are positive and `num_heads` divides `d_model`.
    pub fn new(
        vocab_size: usize,
        d_model: usize,
        max_seq_len: usize,
        num_blocks: usize,
        num_heads: usize,
        d_ff: usize,
    ) -> (r: Result<ModelConfig, LlmError>)
        ensures
            ({
                let c = ModelConfig { vocab_size, d_model, max_seq_len, num_blocks, num_heads, d_ff };
                &&& valid_config(c) ==> r == Ok::<ModelConfig, LlmError>(c)
                &&& !valid_config(c) ==> r == Err::<ModelConfig, LlmError>(
                    LlmError::ConfigurationError,
                )
            }),
    {
        if vocab_size == 0 || d_model == 0 || max_seq_len == 0 || num_blocks == 0 || d_ff == 0 {
            return Err(LlmError::ConfigurationError);
        }
        if num_heads == 0 || d_model % num_heads != 0 {
            return Err(LlmError::ConfigurationError);
        }
        Ok(ModelConfig { vocab_size, d_model, max_seq_len, num_blocks, num_heads, d_ff })
    }

    /// The layout of the attention heads in every block.
    pub fn head_layout(&self) -> (r: MultiHeadLayout)
        requires
            valid_config(*self),
        ensures
            r.wf(),
            r.d_model == self.d_model,
            r.num_heads == self.num_heads,
            r.head_dim == self.d_model / self.num_heads,
    {
        match MultiHeadLayout::new(self.d_model, self.num_heads) {
            Ok(l) => l,
            Err(_) => {
                proof {
                    assert(false);
                }
                MultiHeadLayout { d_model: 0, num_heads: 1, head_dim: 0 }
            },
        }
    }

    /// Checks a sequence of token ids before a forward pass: a sequence
    /// longer than `max_seq_len` is refused first, then the first id that
    /// is not below `vocab_size`.
    pub fn check_tokens(&self, ids: &[usize]) -> (r: Result<(), LlmError>)
        ensures
            r is Ok <==> input_accepted(*self, ids@),
            ids@.len() > self.max_seq_len ==> r == Err::<(), LlmError>(
                LlmError::SequenceTooLong { len: ids@.len() as usize, max_seq_len: self.max_seq_len },
            ),
            ids@.len() <= self.max_seq_len ==> (r matches Err(e) ==> e matches LlmError::IndexOutOfRange {
                position,
                token_id,
            } && {
                &&& position < ids@.len()
                &&& token_id == ids@[position as int]
                &&& token_id >= self.vocab_size
                &&& ids_in_range(ids@.take(position as int), self.vocab_size as int)
            }),
    {
        match check_sequence_length(ids.len(), self.max_seq_len) {
            Err(e) => Err(e),
            Ok(()) => check_token_ids(ids, self.vocab_size),
        }
    }
}

} // verus!
