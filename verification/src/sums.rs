//! Summation over sequences: the mathematical model behind the metric
//! totals of the aggregation layer, with the lemmas that make totals
//! independent of snapshot order.

use vstd::prelude::*;

verus! {

/// Sum of `f` over the elements of `s`, as an unbounded natural number.
pub open spec fn sum_by<T>(s: Seq<T>, f: spec_fn(T) -> nat) -> nat
    decreases s.len(),
{
    if s.len() == 0 {
        0
    } else {
        sum_by(s.drop_last(), f) + f(s.last())
    }
}

/// A natural number clipped to the range of `u64`.
pub open spec fn clip_u64(n: nat) -> u64 {
    if n > u64::MAX {
        u64::MAX
    } else {
        n as u64
    }
}

/// Saturating addition on `u64`.
pub fn saturating_add_u64(total: u64, x: u64) -> (r: u64)
    ensures
        r == clip_u64(total as nat + x as nat),
{
    if total <= u64::MAX - x {
        total + x
    } else {
        u64::MAX
    }
}

/// Clipping commutes with addition: adding to an already clipped total
/// gives the clip of the true total. This is why a running saturating
/// sum equals the clipped sum of the whole sequence.
pub proof fn lemma_clip_add(m: nat, x: u64)
    ensures
        clip_u64(clip_u64(m) as nat + x as nat) == clip_u64(m + x as nat),
{
}

/// Extending a prefix by one element adds that element's contribution.
pub proof fn lemma_sum_by_take_step<T>(s: Seq<T>, i: int, f: spec_fn(T) -> nat)
    requires
        0 <= i < s.len(),
    ensures
        sum_by(s.take(i + 1), f) == sum_by(s.take(i), f) + f(s[i]),
{
    assert(s.take(i + 1).drop_last() =~= s.take(i));
    assert(s.take(i + 1).last() == s[i]);
}

/// Removing one element removes exactly its contribution from the sum.
pub proof fn lemma_sum_by_remove<T>(s: Seq<T>, i: int, f: spec_fn(T) -> nat)
    requires
        0 <= i < s.len(),
    ensures
        sum_by(s, f) == sum_by(s.remove(i), f) + f(s[i]),
    decreases s.len(),
{
    if i == s.len() - 1 {
        assert(s.remove(i) =~= s.drop_last());
    } else {
        let t = s.drop_last();
        lemma_sum_by_remove(t, i, f);
        assert(s.remove(i).drop_last() =~= t.remove(i));
        assert(s.remove(i).last() == s.last());
    }
}

/// Summation is order-independent: two sequences with the same multiset
/// of elements have the same sum, whatever `f` extracts from them.
pub proof fn lemma_sum_by_permutation<T>(a: Seq<T>, b: Seq<T>, f: spec_fn(T) -> nat)
    requires
        a.to_multiset() == b.to_multiset(),
    ensures
        sum_by(a, f) == sum_by(b, f),
    decreases a.len(),
{
    broadcast use vstd::seq_lib::group_to_multiset_ensures;

    if a.len() == 0 {
        assert(b.len() == b.to_multiset().len());
    } else {
        let x = a.last();
        let last = a.len() - 1;
        assert(a[last] == x);
        assert(a.contains(x));
        assert(a.to_multiset().count(x) > 0);
        assert(b.contains(x));
        let i = choose|i: int| 0 <= i < b.len() && b[i] == x;
        let a2 = a.drop_last();
        let b2 = b.remove(i);
        assert(a.remove(last) =~= a2);
        assert(a2.to_multiset() == a.to_multiset().remove(x));
        assert(b2.to_multiset() == b.to_multiset().remove(x));
        lemma_sum_by_permutation(a2, b2, f);
        lemma_sum_by_remove(b, i, f);
    }
}

/// A sum of zero-or-one contributions (a count of matching elements) is
/// bounded by the length of the sequence.
pub proof fn lemma_sum_by_bounded<T>(s: Seq<T>, f: spec_fn(T) -> nat)
    requires
        forall|x: T| #[trigger] f(x) <= 1,
    ensures
        sum_by(s, f) <= s.len(),
    decreases s.len(),
{
    if s.len() > 0 {
        lemma_sum_by_bounded(s.drop_last(), f);
    }
}

} // verus!
