//! The order that `PartialOrd` gives, as the contracts of this crate see it.

use std::cmp::Ordering;
use vstd::prelude::*;
use vstd::std_specs::cmp::PartialOrdSpec;

verus! {

/// `a` comes no later than `b`: `a <= b` by `PartialOrd`'s specification.
pub open spec fn precedes<T: PartialOrd>(a: T, b: T) -> bool {
    a.partial_cmp_spec(&b) == Some(Ordering::Less) || a.partial_cmp_spec(&b) == Some(
        Ordering::Equal,
    )
}

/// `T`'s comparisons follow their specification and form a total preorder:
/// any two values compare, `a > b` exactly when not `a <= b`, and `<=` is
/// transitive.
pub open spec fn is_total_order<T: PartialOrd>() -> bool {
    &&& T::obeys_partial_cmp_spec()
    &&& forall|a: T, b: T|
        #![trigger precedes(a, b)]
        #![trigger precedes(b, a)]
        precedes(a, b) || precedes(b, a)
    &&& forall|a: T, b: T|
        #[trigger] a.partial_cmp_spec(&b) == Some(Ordering::Greater) <==> !precedes(a, b)
    &&& forall|a: T, b: T, c: T|
        #[trigger] precedes(a, b) && #[trigger] precedes(b, c) ==> precedes(a, c)
}

/// Every element comes no later than every element after it.
pub open spec fn sorted_by_order<T: PartialOrd>(s: Seq<T>) -> bool {
    forall|i: int, j: int| 0 <= i < j < s.len() ==> precedes(s[i], s[j])
}

/// The integers of `i32` are totally ordered.
pub proof fn lemma_i32_total_order()
    ensures
        is_total_order::<i32>(),
{
}

} // verus!
