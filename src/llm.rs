//! The integer side of a Transformer language model: what is checked before
//! any arithmetic runs, and the layouts that the arithmetic follows.

pub mod attn;
pub mod config;
pub mod embedding;
pub mod error;
pub mod mask;
