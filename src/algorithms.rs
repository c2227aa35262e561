//! Generic helpers and sorting.

pub mod general;
pub mod order;
pub mod sorting;
