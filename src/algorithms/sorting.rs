//! Sorting: a functional quicksort on `i32` and an in-place one on slices.

use vstd::prelude::*;
use vstd::std_specs::cmp::PartialOrdSpec;

use crate::algorithms::order::{is_total_order, precedes, sorted_by_order};

verus! {

broadcast use {
    vstd::seq_lib::group_to_multiset_ensures,
    vstd::seq_lib::lemma_multiset_commutative,
    vstd::multiset::group_multiset_axioms,
};

/// Relies on std's `slice::swap`: it exchanges the elements at `a` and `b`, and
/// panics where either is out of range.
pub assume_specification<E>[ <[E]>::swap ](s: &mut [E], a: usize, b: usize)
    requires
        a < old(s)@.len(),
        b < old(s)@.len(),
    ensures
        final(s)@ == old(s)@.update(a as int, old(s)@[b as int]).update(b as int, old(s)@[a as int]),
;

/// Every element is at most each element after it.
pub open spec fn sorted(s: Seq<i32>) -> bool {
    forall|i: int, j: int| 0 <= i < j < s.len() ==> s[i] <= s[j]
}

/// Exchanging two elements keeps the multiset of a sequence.
proof fn lemma_swap_multiset<T>(s: Seq<T>, a: int, b: int)
    requires
        0 <= a < s.len(),
        0 <= b < s.len(),
    ensures
        s.update(a, s[b]).update(b, s[a]).to_multiset() == s.to_multiset(),
{
    if a == b {
        assert(s.update(a, s[b]).update(b, s[a]) =~= s);
    } else {
        let t = s.update(a, s[b]);
        vstd::seq_lib::to_multiset_update(s, a, s[b]);
        vstd::seq_lib::to_multiset_update(t, b, s[a]);
        assert(t[b] == s[b]);
        assert(t.update(b, s[a]).to_multiset() =~= s.to_multiset());
    }
}

/// A property of every element carries over to a sequence with the same
/// multiset.
proof fn lemma_carries_over<T>(a: Seq<T>, b: Seq<T>, p: spec_fn(T) -> bool)
    requires
        a.to_multiset() == b.to_multiset(),
        forall|k: int| 0 <= k < a.len() ==> p(#[trigger] a[k]),
    ensures
        forall|k: int| 0 <= k < b.len() ==> p(#[trigger] b[k]),
{
    assert forall|k: int| 0 <= k < b.len() implies p(#[trigger] b[k]) by {
        assert(b.contains(b[k]));
        vstd::seq_lib::to_multiset_contains(b, b[k]);
        vstd::seq_lib::to_multiset_contains(a, b[k]);
        let j = choose|j: int| 0 <= j < a.len() && a[j] == b[k];
        assert(p(a[j]));
    }
}

/// Sorts `arr` by taking its first element as the pivot, sorting the
/// elements below it and those not below it apart, and joining the three.
pub fn qs(arr: Vec<i32>) -> (r: Vec<i32>)
    ensures
        r@.to_multiset() == arr@.to_multiset(),
        sorted(r@),
    decreases arr@.len(),
{
    if arr.len() < 2 {
        return arr;
    }
    let pivot = arr[0];
    let mut low: Vec<i32> = Vec::new();
    let mut high: Vec<i32> = Vec::new();
    let mut k: usize = 1;
    while k < arr.len()
        invariant
            1 <= k <= arr@.len(),
            low@.len() + high@.len() == k - 1,
            forall|i: int| 0 <= i < low@.len() ==> #[trigger] low@[i] < pivot,
            forall|i: int| 0 <= i < high@.len() ==> #[trigger] high@[i] >= pivot,
            low@.to_multiset().add(high@.to_multiset()) == arr@.subrange(1, k as int).to_multiset(),
        decreases arr@.len() - k,
    {
        let x = arr[k];
        assert(arr@.subrange(1, k + 1) =~= arr@.subrange(1, k as int).push(x));
        if x < pivot {
            low.push(x);
        } else {
            high.push(x);
        }
        k += 1;
    }
    assert(arr@.subrange(1, arr@.len() as int) =~= arr@.drop_first());
    assert(arr@ =~= seq![pivot] + arr@.drop_first());
    let ghost low0 = low@;
    let ghost high0 = high@;
    let sorted_low = qs(low);
    let sorted_high = qs(high);
    proof {
        lemma_carries_over(low0, sorted_low@, |x: i32| x < pivot);
        lemma_carries_over(high0, sorted_high@, |x: i32| x >= pivot);
    }
    let mut r = sorted_low;
    r.push(pivot);
    let mut m: usize = 0;
    while m < sorted_high.len()
        invariant
            m <= sorted_high@.len(),
            r@ =~= sorted_low@.push(pivot) + sorted_high@.subrange(0, m as int),
        decreases sorted_high@.len() - m,
    {
        r.push(sorted_high[m]);
        m += 1;
    }
    assert(sorted_high@.subrange(0, sorted_high@.len() as int) =~= sorted_high@);
    assert(sorted_low@.push(pivot) =~= sorted_low@ + seq![pivot]);
    assert(r@.to_multiset() =~= arr@.to_multiset());
    r
}

/// Moves the middle element to its sorted place in `arr`: what lies before
/// it comes no later than it, what lies after it does not.
fn partition<T: PartialOrd>(arr: &mut [T]) -> (p: usize)
    requires
        old(arr)@.len() >= 1,
    ensures
        final(arr)@.len() == old(arr)@.len(),
        final(arr)@.to_multiset() == old(arr)@.to_multiset(),
        p < final(arr)@.len(),
        T::obeys_partial_cmp_spec() ==> forall|k: int|
            0 <= k < p ==> precedes(#[trigger] final(arr)@[k], final(arr)@[p as int]),
        T::obeys_partial_cmp_spec() ==> forall|k: int|
            p < k < final(arr)@.len() ==> !precedes(#[trigger] final(arr)@[k], final(arr)@[p as int]),
{
    let n = arr.len();
    let pivot_index = n / 2;
    proof {
        lemma_swap_multiset(arr@, pivot_index as int, n - 1);
    }
    arr.swap(pivot_index, n - 1);
    let mut i: usize = 0;
    let mut j: usize = 0;
    while j < n - 1
        invariant
            arr@.len() == n,
            i <= j <= n - 1,
            arr@.to_multiset() == old(arr)@.to_multiset(),
            T::obeys_partial_cmp_spec() ==> forall|k: int|
                0 <= k < i ==> precedes(#[trigger] arr@[k], arr@[n - 1]),
            T::obeys_partial_cmp_spec() ==> forall|k: int|
                i <= k < j ==> !precedes(#[trigger] arr@[k], arr@[n - 1]),
        decreases n - 1 - j,
    {
        if arr[j] <= arr[n - 1] {
            proof {
                lemma_swap_multiset(arr@, i as int, j as int);
            }
            arr.swap(i, j);
            i += 1;
        }
        j += 1;
    }
    proof {
        lemma_swap_multiset(arr@, i as int, n - 1);
    }
    arr.swap(i, n - 1);
    i
}

/// Sorts `arr` in place: it partitions around its middle element and sorts
/// the two sides. The elements are kept; they come out in order wherever
/// `T`'s order is total.
pub fn quick_sort<T: PartialOrd>(arr: &mut [T])
    ensures
        final(arr)@.len() == old(arr)@.len(),
        final(arr)@.to_multiset() == old(arr)@.to_multiset(),
        is_total_order::<T>() ==> sorted_by_order(final(arr)@),
    decreases old(arr)@.len(),
{
    if arr.len() <= 1 {
        return;
    }
    let p = partition(arr);
    let ghost s = arr@;
    let ghost pivot = s[p as int];
    let ghost l0 = s.subrange(0, p as int);
    let ghost r0 = s.subrange(p + 1, s.len() as int);
    proof {
        assert(s =~= l0 + seq![pivot] + r0);
        assert(s.subrange(p as int, s.len() as int) =~= seq![pivot] + r0);
    }
    let (left, rest) = arr.split_at_mut(p);
    let (mid, right) = rest.split_at_mut(1);
    proof {
        assert(right@ =~= r0);
        assert(left@ =~= l0);
    }
    quick_sort(left);
    quick_sort(right);
    let ghost l1 = left@;
    let ghost m1 = mid@;
    let ghost r1 = right@;
    proof {
        assert(m1 =~= seq![pivot]);
        assert(arr@ =~= l1 + m1 + r1);
        assert(arr@.to_multiset() =~= s.to_multiset());
        if T::obeys_partial_cmp_spec() {
            lemma_carries_over(l0, l1, |x: T| precedes(x, pivot));
            lemma_carries_over(r0, r1, |x: T| !precedes(x, pivot));
        }
        if is_total_order::<T>() {
            let f = arr@;
            assert forall|i: int, j: int| 0 <= i < j < f.len() implies precedes(f[i], f[j]) by {
                let n = l1.len() as int;
                if j < n {
                } else if i > n {
                } else if i == n {
                    assert(!precedes(f[j], pivot));
                } else if j == n {
                    assert(precedes(f[i], pivot));
                } else {
                    assert(precedes(f[i], pivot));
                    assert(!precedes(f[j], pivot));
                    assert(precedes(pivot, f[j]));
                }
            }
        }
    }
}

} // verus!
