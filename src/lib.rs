//! A small learning library: generic helpers, two quicksorts, and the integer
//! side of a Transformer language model (configuration checks, attention
//! layout, input validation and the causal mask pattern).

pub mod algorithms;
pub mod llm;

pub use algorithms::general::{add, largest};
pub use algorithms::sorting::{qs, quick_sort};
