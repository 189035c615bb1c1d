//! Folded integer sums over sequences, and the lemmas that make them
//! order-invariant: both the batch clearer and the resolution aggregator
//! must depend only on aggregate totals, never on submission order.

use vstd::prelude::*;
use vstd::seq_lib::commutative_foldr;
use vstd::seq_lib::lemma_fold_right_permutation;

verus! {

/// `f` adds a per-element contribution to its accumulator.
pub open spec fn additive<A>(f: spec_fn(A, int) -> int) -> bool {
    forall|x: A, acc: int| #[trigger] f(x, acc) == f(x, 0) + acc
}

/// Every element's contribution under `f` is non-negative.
pub open spec fn nonneg_step<A>(f: spec_fn(A, int) -> int) -> bool {
    forall|x: A| #[trigger] f(x, 0) >= 0
}

/// Folding an additive step from any base just shifts the sum by the base.
pub proof fn lemma_fold_shift<A>(s: Seq<A>, f: spec_fn(A, int) -> int, b: int)
    requires
        additive(f),
    ensures
        s.fold_right(f, b) == s.fold_right(f, 0) + b,
    decreases s.len(),
{
    if s.len() > 0 {
        lemma_fold_shift(s.drop_last(), f, f(s.last(), b));
        lemma_fold_shift(s.drop_last(), f, f(s.last(), 0));
    }
}

/// Appending one element adds exactly that element's contribution.
pub proof fn lemma_fold_push<A>(s: Seq<A>, f: spec_fn(A, int) -> int, x: A)
    requires
        additive(f),
    ensures
        s.push(x).fold_right(f, 0) == s.fold_right(f, 0) + f(x, 0),
{
    assert(s.push(x).drop_last() =~= s);
    lemma_fold_shift(s, f, f(x, 0));
}

/// A sum of non-negative contributions is non-negative.
pub proof fn lemma_fold_nonneg<A>(s: Seq<A>, f: spec_fn(A, int) -> int)
    requires
        additive(f),
        nonneg_step(f),
    ensures
        s.fold_right(f, 0) >= 0,
    decreases s.len(),
{
    if s.len() > 0 {
        lemma_fold_nonneg(s.drop_last(), f);
        lemma_fold_shift(s.drop_last(), f, f(s.last(), 0));
    }
}

/// The sum splits at any cut point into the prefix sum plus the suffix sum.
pub proof fn lemma_fold_split<A>(s: Seq<A>, f: spec_fn(A, int) -> int, k: int)
    requires
        additive(f),
        0 <= k <= s.len(),
    ensures
        s.fold_right(f, 0) == s.subrange(0, k).fold_right(f, 0) + s.subrange(
            k,
            s.len() as int,
        ).fold_right(f, 0),
{
    s.lemma_fold_right_split(f, 0, k);
    lemma_fold_shift(s.subrange(0, k), f, s.subrange(k, s.len() as int).fold_right(f, 0));
}

/// Replacing one element exchanges exactly its contribution.
pub proof fn lemma_fold_update<A>(s: Seq<A>, f: spec_fn(A, int) -> int, i: int, x: A)
    requires
        additive(f),
        0 <= i < s.len(),
    ensures
        s.update(i, x).fold_right(f, 0) == s.fold_right(f, 0) - f(s[i], 0) + f(x, 0),
{
    let t = s.update(i, x);
    lemma_fold_split(s, f, i + 1);
    lemma_fold_split(t, f, i + 1);
    assert(s.subrange(0, i + 1) =~= s.subrange(0, i).push(s[i]));
    assert(t.subrange(0, i + 1) =~= s.subrange(0, i).push(x));
    assert(t.subrange(i + 1, t.len() as int) =~= s.subrange(i + 1, s.len() as int));
    lemma_fold_push(s.subrange(0, i), f, s[i]);
    lemma_fold_push(s.subrange(0, i), f, x);
}

/// An additive step is commutative in the fold order.
pub proof fn lemma_additive_commutes<A>(f: spec_fn(A, int) -> int)
    requires
        additive(f),
    ensures
        commutative_foldr(f),
{
}

/// Sequences holding the same multiset of elements have the same sum:
/// an additive fold is invariant under permutation.
pub proof fn lemma_fold_permutation<A>(s1: Seq<A>, s2: Seq<A>, f: spec_fn(A, int) -> int)
    requires
        additive(f),
        s1.to_multiset() == s2.to_multiset(),
    ensures
        s1.fold_right(f, 0) == s2.fold_right(f, 0),
{
    lemma_additive_commutes(f);
    lemma_fold_right_permutation(s1, s2, f, 0);
}

} // verus!
