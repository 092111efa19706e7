//! Sums over integer sequences, with the lemmas the allocation proofs use.

use vstd::prelude::*;
use vstd::arithmetic::div_mod::{
    lemma_div_is_ordered, lemma_div_multiples_vanish, lemma_fundamental_div_mod,
};

verus! {

/// The sum of a sequence of integers.
pub open spec fn seq_sum(s: Seq<int>) -> int
    decreases s.len(),
{
    if s.len() == 0 {
        0
    } else {
        seq_sum(s.drop_last()) + s.last()
    }
}

/// Extending a prefix by one element adds that element to its sum.
pub proof fn lemma_seq_sum_take_succ(s: Seq<int>, i: int)
    requires
        0 <= i < s.len(),
    ensures
        seq_sum(s.take(i + 1)) == seq_sum(s.take(i)) + s[i],
{
    assert(s.take(i + 1).drop_last() =~= s.take(i));
    assert(s.take(i + 1).last() == s[i]);
}

/// A sum of non-negative values is non-negative.
pub proof fn lemma_seq_sum_nonneg(s: Seq<int>)
    requires
        forall|k: int| 0 <= k < s.len() ==> #[trigger] s[k] >= 0,
    ensures
        seq_sum(s) >= 0,
    decreases s.len(),
{
    if s.len() > 0 {
        assert(forall|k: int|
            0 <= k < s.drop_last().len() ==> #[trigger] s.drop_last()[k] >= 0);
        lemma_seq_sum_nonneg(s.drop_last());
    }
}

/// With non-negative values, a prefix sums to at most the whole.
pub proof fn lemma_seq_sum_prefix_le(s: Seq<int>, k: int)
    requires
        forall|j: int| 0 <= j < s.len() ==> #[trigger] s[j] >= 0,
        0 <= k <= s.len(),
    ensures
        seq_sum(s.take(k)) <= seq_sum(s),
    decreases s.len() - k,
{
    if k < s.len() {
        lemma_seq_sum_take_succ(s, k);
        lemma_seq_sum_prefix_le(s, k + 1);
    } else {
        assert(s.take(k) =~= s);
    }
}

/// With non-negative values, each element is at most the sum.
pub proof fn lemma_seq_sum_element_le(s: Seq<int>, i: int)
    requires
        forall|j: int| 0 <= j < s.len() ==> #[trigger] s[j] >= 0,
        0 <= i < s.len(),
    ensures
        s[i] <= seq_sum(s),
{
    lemma_seq_sum_take_succ(s, i);
    assert(forall|j: int|
        0 <= j < s.take(i).len() ==> #[trigger] s.take(i)[j] >= 0);
    lemma_seq_sum_nonneg(s.take(i));
    lemma_seq_sum_prefix_le(s, i + 1);
}

/// Replacing one element changes the sum by the difference.
pub proof fn lemma_seq_sum_update(s: Seq<int>, i: int, v: int)
    requires
        0 <= i < s.len(),
    ensures
        seq_sum(s.update(i, v)) == seq_sum(s) - s[i] + v,
    decreases s.len(),
{
    if i == s.len() - 1 {
        assert(s.update(i, v).drop_last() =~= s.drop_last());
        assert(s.update(i, v).last() == v);
    } else {
        assert(s.update(i, v).drop_last() =~= s.drop_last().update(i, v));
        assert(s.update(i, v).last() == s.last());
        lemma_seq_sum_update(s.drop_last(), i, v);
    }
}

/// A sequence of values bounded by `b` sums to at most `len * b`.
pub proof fn lemma_seq_sum_bounded(s: Seq<int>, b: int)
    requires
        forall|k: int| 0 <= k < s.len() ==> #[trigger] s[k] <= b,
        b >= 0,
    ensures
        seq_sum(s) <= s.len() * b,
    decreases s.len(),
{
    if s.len() == 0 {
    } else {
        assert(forall|k: int|
            0 <= k < s.drop_last().len() ==> #[trigger] s.drop_last()[k] <= b);
        lemma_seq_sum_bounded(s.drop_last(), b);
        assert((s.len() - 1) * b + b == s.len() * b) by (nonlinear_arith);
    }
}

/// A sequence of zeros sums to zero.
pub proof fn lemma_seq_sum_zero(s: Seq<int>)
    requires
        forall|k: int| 0 <= k < s.len() ==> #[trigger] s[k] == 0,
    ensures
        seq_sum(s) == 0,
    decreases s.len(),
{
    if s.len() > 0 {
        assert(forall|k: int|
            0 <= k < s.drop_last().len() ==> #[trigger] s.drop_last()[k] == 0);
        lemma_seq_sum_zero(s.drop_last());
    }
}

/// Floor division is superadditive: `a / c + b / c <= (a + b) / c`.
pub proof fn lemma_div_superadd(a: int, b: int, c: int)
    requires
        0 <= a,
        0 <= b,
        0 < c,
    ensures
        a / c + b / c <= (a + b) / c,
{
    lemma_fundamental_div_mod(a, c);
    lemma_fundamental_div_mod(b, c);
    assert(a + b >= c * (a / c) + c * (b / c));
    assert(c * (a / c) + c * (b / c) == c * (a / c + b / c)) by (nonlinear_arith);
    lemma_div_is_ordered(c * (a / c + b / c), a + b, c);
    lemma_div_multiples_vanish(a / c + b / c, c);
}

} // verus!
