//! Attention dimensions: the builder of a single head and the layout of
//! several heads side by side.

use vstd::prelude::*;

use crate::llm::error::LlmError;

verus! {

/// The widths of one attention head: input `d_model`, queries and keys
/// `d_k`, values `d_v`.
#[derive(Debug, Clone, Copy, PartialEq, Eq, Structural)]
pub struct AttentionDims {
    pub d_model: usize,
    pub d_k: usize,
    pub d_v: usize,
}

/// The number of weights of a head: `W_q` and `W_k` are `d_model x d_k`,
/// `W_v` is `d_model x d_v`.
pub open spec fn parameter_count(d: AttentionDims) -> int {
    d.d_model * d.d_k + d.d_model * d.d_k + d.d_model * d.d_v
}

impl AttentionDims {
    /// The number of weights in the three projection matrices.
    pub fn num_parameters(&self) -> (r: usize)
        requires
            parameter_count(*self) <= usize::MAX,
        ensures
            r == parameter_count(*self),
    {
        proof {
            assert(0 <= self.d_model * self.d_k) by (nonlinear_arith);
            assert(0 <= self.d_model * self.d_v) by (nonlinear_arith);
        }
        let q = self.d_model * self.d_k;
        let v = self.d_model * self.d_v;
        q + q + v
    }
}

/// Gathers the dimensions of an attention head one at a time; `build`
/// checks them all at once.
#[derive(Debug, Clone, Copy, PartialEq, Eq, Structural)]
pub struct SelfAttentionBuilder {
    pub d_model: Option<usize>,
    pub d_k: Option<usize>,
    pub d_v: Option<usize>,
}

impl SelfAttentionBuilder {
    /// A builder with no dimension set.
    pub fn new() -> (r: Self)
        ensures
            r.d_model is None,
            r.d_k is None,
            r.d_v is None,
    {
        SelfAttentionBuilder { d_model: None, d_k: None, d_v: None }
    }

    /// Sets the input width.
    pub fn d_model(self, d_model: usize) -> (r: Self)
        ensures
            r == (SelfAttentionBuilder { d_model: Some(d_model), ..self }),
    {
        SelfAttentionBuilder { d_model: Some(d_model), ..self }
    }

    /// Sets the width of queries and keys.
    pub fn d_k(self, d_k: usize) -> (r: Self)
        ensures
            r == (SelfAttentionBuilder { d_k: Some(d_k), ..self }),
    {
        SelfAttentionBuilder { d_k: Some(d_k), ..self }
    }

    /// Sets the width of values.
    pub fn d_v(self, d_v: usize) -> (r: Self)
        ensures
            r == (SelfAttentionBuilder { d_v: Some(d_v), ..self }),
    {
        SelfAttentionBuilder { d_v: Some(d_v), ..self }
    }

    /// The dimensions gathered so far: `d_model` must be set; `d_k` and
    /// `d_v` default to it.
    pub fn build(self) -> (r: Result<AttentionDims, &'static str>)
        ensures
            self.d_model is None <==> r is Err,
            self.d_model matches Some(m) ==> r == Ok::<AttentionDims, &'static str>(
                AttentionDims {
                    d_model: m,
                    d_k: match self.d_k {
                        Some(k) => k,
                        None => m,
                    },
                    d_v: match self.d_v {
                        Some(v) => v,
                        None => m,
                    },
                },
            ),
    {
        match self.d_model {
            None => Err("d_model must be set"),
            Some(d_model) => {
                let d_k = match self.d_k {
                    Some(k) => k,
                    None => d_model,
                };
                let d_v = match self.d_v {
                    Some(v) => v,
                    None => d_model,
                };
                Ok(AttentionDims { d_model, d_k, d_v })
            },
        }
    }
}

impl Default for SelfAttentionBuilder {
    fn default() -> (r: Self)
        ensures
            r.d_model is None,
            r.d_k is None,
            r.d_v is None,
    {
        Self::new()
    }
}

/// How `num_heads` heads share the model width `d_model`: each head works at
/// width `head_dim`, and their outputs stand side by side, head `h` in
/// columns `h * head_dim .. (h + 1) * head_dim`, in the order of the heads.
#[derive(Debug, Clone, Copy, PartialEq, Eq, Structural)]
pub struct MultiHeadLayout {
    pub d_model: usize,
    pub num_heads: usize,
    pub head_dim: usize,
}

/// `num_heads` heads can share `d_model`: there is at least one head and
/// the heads divide the width evenly.
pub open spec fn heads_fit(d_model: int, num_heads: int) -> bool {
    num_heads > 0 && d_model % num_heads == 0
}

/// The first column of head `h`.
pub open spec fn head_start(l: MultiHeadLayout, h: int) -> int {
    h * l.head_dim
}

/// One past the last column of head `h`.
pub open spec fn head_end(l: MultiHeadLayout, h: int) -> int {
    (h + 1) * l.head_dim
}

impl MultiHeadLayout {
    /// The heads exactly fill the model width.
    pub open spec fn wf(&self) -> bool {
        &&& self.num_heads > 0
        &&& self.num_heads * self.head_dim == self.d_model
    }

    /// The layout of `num_heads` heads over `d_model`, refused with a
    /// configuration error where the heads do not divide the width.
    pub fn new(d_model: usize, num_heads: usize) -> (r: Result<Self, LlmError>)
        ensures
            heads_fit(d_model as int, num_heads as int) <==> r is Ok,
            !heads_fit(d_model as int, num_heads as int) ==> r == Err::<Self, LlmError>(
                LlmError::ConfigurationError,
            ),
            r matches Ok(l) ==> {
                &&& l.wf()
                &&& l.d_model == d_model
                &&& l.num_heads == num_heads
                &&& l.head_dim == d_model / num_heads
            },
    {
        if num_heads == 0 || d_model % num_heads != 0 {
            return Err(LlmError::ConfigurationError);
        }
        let head_dim = d_model / num_heads;
        proof {
            assert(num_heads * (d_model / num_heads) == d_model) by (nonlinear_arith)
                requires
                    num_heads > 0,
                    d_model % num_heads == 0,
            ;
        }
        Ok(MultiHeadLayout { d_model, num_heads, head_dim })
    }

    /// The dimensions that every head is built with: the full input width,
    /// and `head_dim` for queries, keys and values.
    pub fn head_dims(&self) -> (r: AttentionDims)
        ensures
            r == (AttentionDims { d_model: self.d_model, d_k: self.head_dim, d_v: self.head_dim }),
    {
        AttentionDims { d_model: self.d_model, d_k: self.head_dim, d_v: self.head_dim }
    }

    /// The columns `start .. end` that head `h` fills in the concatenation.
    pub fn head_columns(&self, h: usize) -> (r: (usize, usize))
        requires
            self.wf(),
            h < self.num_heads,
        ensures
            r.0 == head_start(*self, h as int),
            r.1 == head_end(*self, h as int),
            r.1 <= self.d_model,
    {
        proof {
            assert((h + 1) * self.head_dim <= self.num_heads * self.head_dim) by (nonlinear_arith)
                requires
                    h < self.num_heads,
            ;
            assert(h * self.head_dim <= (h + 1) * self.head_dim) by (nonlinear_arith);
        }
        (h * self.head_dim, (h + 1) * self.head_dim)
    }
}

/// Heads side by side fill the model width exactly, whatever their number:
/// the first starts at column 0, each is `head_dim` wide and ends where the
/// next starts, and the last ends at `d_model`. So the concatenation of the
/// head outputs, like the input, is `d_model` wide.
pub proof fn lemma_heads_fill_width(l: MultiHeadLayout)
    requires
        l.wf(),
    ensures
        head_start(l, 0) == 0,
        head_end(l, l.num_heads - 1) == l.d_model,
        forall|h: int| 0 <= h < l.num_heads ==> head_end(l, h) - head_start(l, h) == l.head_dim,
        forall|h: int|
            0 <= h < l.num_heads - 1 ==> #[trigger] head_end(l, h) == head_start(l, h + 1),
{
    assert forall|h: int| true implies #[trigger] head_end(l, h) == head_start(l, h) + l.head_dim by {
        assert((h + 1) * l.head_dim == h * l.head_dim + l.head_dim) by (nonlinear_arith);
    }
    assert(head_end(l, l.num_heads - 1) == l.num_heads * l.head_dim) by (nonlinear_arith)
        requires
            l.num_heads > 0,
    ;
}

/// A mask for `seq_len` positions must be `seq_len x seq_len`; any other
/// shape is a configuration error.
pub fn check_mask_shape(seq_len: usize, rows: usize, cols: usize) -> (r: Result<(), LlmError>)
    ensures
        (rows == seq_len && cols == seq_len) <==> r is Ok,
        r is Err ==> r == Err::<(), LlmError>(LlmError::ConfigurationError),
{
    if rows == seq_len && cols == seq_len {
        Ok(())
    } else {
        Err(LlmError::ConfigurationError)
    }
}

} // verus!
