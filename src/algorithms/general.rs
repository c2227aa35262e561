//! Generic helpers over std's operator and comparison traits.

use vstd::prelude::*;
use vstd::std_specs::ops::AddSpec;

use crate::algorithms::order::{is_total_order, precedes};

verus! {

/// The sum `a + b` by `T`'s `Add`.
pub fn add<T: std::ops::Add<Output = T>>(a: T, b: T) -> (r: T)
    requires
        a.add_req(b),
    ensures
        T::obeys_add_spec() ==> r == a.add_spec(b),
{
    a + b
}

/// An element of `list` that no later element exceeds. Where the order is
/// total it is the first of the largest elements: every element comes no
/// later than it, and every element before it comes strictly earlier.
pub fn largest<T: PartialOrd>(list: &[T]) -> (r: &T)
    requires
        list@.len() > 0,
    ensures
        exists|i: int|
            0 <= i < list@.len() && *r == list@[i] && (is_total_order::<T>() ==> forall|k: int|
                0 <= k < i ==> !precedes(*r, #[trigger] list@[k])),
        is_total_order::<T>() ==> forall|k: int|
            0 <= k < list@.len() ==> precedes(#[trigger] list@[k], *r),
{
    let mut best: usize = 0;
    let mut idx: usize = 0;
    while idx < list.len()
        invariant
            0 <= best < list@.len(),
            best <= idx,
            idx <= list@.len(),
            is_total_order::<T>() ==> forall|k: int|
                0 <= k < idx ==> precedes(#[trigger] list@[k], list@[best as int]),
            is_total_order::<T>() ==> forall|k: int|
                0 <= k < best ==> !precedes(list@[best as int], #[trigger] list@[k]),
        decreases list@.len() - idx,
    {
        if list[idx] > list[best] {
            best = idx;
        }
        idx += 1;
    }
    &list[best]
}

} // verus!
