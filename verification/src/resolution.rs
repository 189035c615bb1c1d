//! The resolution aggregator: weighted attestations tallied into a binary
//! outcome.  The tally depends only on per-side weight totals, so it too is
//! order-invariant.  A tie in total weight resolves to NO under the strict
//! "greater than" comparison — a deterministic tie-break, not an error.

use vstd::prelude::*;

use crate::errors::MarketError;
use crate::sums::additive;
use crate::sums::nonneg_step;
use crate::sums::lemma_fold_nonneg;
use crate::sums::lemma_fold_push;
use crate::sums::lemma_fold_split;
use crate::sums::lemma_fold_permutation;

verus! {

/// One resolver's vote: a binary outcome (true = YES) and a weight derived
/// from its stake.  Attestations are aggregated only inside the
/// confidential compute collaborator; the aggregator sees plain values
/// there.
#[derive(Clone, Copy, Debug, PartialEq, Eq, Structural)]
pub struct Attestation {
    pub outcome: bool,
    pub weight: u64,
}

/// The aggregate resolution: the winning outcome and that side's total
/// weight as confidence.
#[derive(Clone, Copy, Debug, PartialEq, Eq, Structural)]
pub struct ResolutionResult {
    pub final_outcome: bool,
    pub confidence: u64,
}

/// The contribution of one attestation to the YES-side weight.
pub open spec fn yes_weight_step() -> spec_fn(Attestation, int) -> int {
    |a: Attestation, acc: int| if a.outcome { acc + a.weight } else { acc }
}

/// The contribution of one attestation to the NO-side weight.
pub open spec fn no_weight_step() -> spec_fn(Attestation, int) -> int {
    |a: Attestation, acc: int| if !a.outcome { acc + a.weight } else { acc }
}

/// Total weight attested for YES.
pub open spec fn yes_weight(atts: Seq<Attestation>) -> int {
    atts.fold_right(yes_weight_step(), 0)
}

/// Total weight attested for NO.
pub open spec fn no_weight(atts: Seq<Attestation>) -> int {
    atts.fold_right(no_weight_step(), 0)
}

/// The aggregate outcome: YES exactly when YES's total weight strictly
/// exceeds NO's, so equal weight resolves to NO.
pub open spec fn spec_final_outcome(atts: Seq<Attestation>) -> bool {
    yes_weight(atts) > no_weight(atts)
}

/// The winning side's total weight.
pub open spec fn spec_confidence(atts: Seq<Attestation>) -> int {
    if spec_final_outcome(atts) {
        yes_weight(atts)
    } else {
        no_weight(atts)
    }
}

/// Whether both weight totals fit in 64 bits.
pub open spec fn resolution_fits(atts: Seq<Attestation>) -> bool {
    yes_weight(atts) <= u64::MAX && no_weight(atts) <= u64::MAX
}

/// The full aggregate for a collection of attestations.
pub open spec fn spec_resolve_market(atts: Seq<Attestation>) -> ResolutionResult {
    ResolutionResult {
        final_outcome: spec_final_outcome(atts),
        confidence: spec_confidence(atts) as u64,
    }
}

/// The weight steps are additive with non-negative contributions.
proof fn lemma_weight_step_props()
    ensures
        additive(yes_weight_step()),
        additive(no_weight_step()),
        nonneg_step(yes_weight_step()),
        nonneg_step(no_weight_step()),
{
}

/// Weight totals are non-negative.
pub proof fn lemma_weight_nonneg(atts: Seq<Attestation>)
    ensures
        yes_weight(atts) >= 0,
        no_weight(atts) >= 0,
{
    lemma_weight_step_props();
    lemma_fold_nonneg(atts, yes_weight_step());
    lemma_fold_nonneg(atts, no_weight_step());
}

/// Resolution is order-invariant: two collections holding the same multiset
/// of attestations produce the same outcome and confidence.
pub proof fn lemma_resolution_order_invariant(s1: Seq<Attestation>, s2: Seq<Attestation>)
    requires
        s1.to_multiset() == s2.to_multiset(),
    ensures
        yes_weight(s1) == yes_weight(s2),
        no_weight(s1) == no_weight(s2),
        spec_resolve_market(s1) == spec_resolve_market(s2),
        resolution_fits(s1) == resolution_fits(s2),
{
    lemma_weight_step_props();
    lemma_fold_permutation(s1, s2, yes_weight_step());
    lemma_fold_permutation(s1, s2, no_weight_step());
}

/// Tallies weighted attestations into a binary outcome: YES wins exactly
/// when its total weight strictly exceeds NO's, and the winning total is
/// returned as confidence.  Fails with `Overflow` exactly when a weight
/// total does not fit in 64 bits.
pub fn resolve_market(attestations: &Vec<Attestation>) -> (r: Result<ResolutionResult, MarketError>)
    ensures
        resolution_fits(attestations@) ==> r == Ok::<ResolutionResult, MarketError>(
            spec_resolve_market(attestations@),
        ),
        !resolution_fits(attestations@) ==> r == Err::<ResolutionResult, MarketError>(
            MarketError::Overflow,
        ),
{
    proof {
        lemma_weight_step_props();
        lemma_weight_nonneg(attestations@);
    }
    let n = attestations.len();
    let mut w_yes: u64 = 0;
    let mut w_no: u64 = 0;
    let mut i: usize = 0;
    while i < n
        invariant
            n == attestations@.len(),
            i <= n,
            w_yes == yes_weight(attestations@.subrange(0, i as int)),
            w_no == no_weight(attestations@.subrange(0, i as int)),
        decreases n - i,
    {
        proof {
            lemma_weight_step_props();
            assert(attestations@.subrange(0, i + 1) =~= attestations@.subrange(0, i as int).push(
                attestations@[i as int],
            ));
            lemma_fold_push(attestations@.subrange(0, i as int), yes_weight_step(), attestations@[i as int]);
            lemma_fold_push(attestations@.subrange(0, i as int), no_weight_step(), attestations@[i as int]);
        }
        let a = attestations[i];
        if a.outcome {
            w_yes = match w_yes.checked_add(a.weight) {
                Some(v) => v,
                None => {
                    proof {
                        lemma_weight_overflow_means_unfit(attestations@, i as int);
                    }
                    return Err(MarketError::Overflow);
                },
            };
        } else {
            w_no = match w_no.checked_add(a.weight) {
                Some(v) => v,
                None => {
                    proof {
                        lemma_weight_overflow_means_unfit(attestations@, i as int);
                    }
                    return Err(MarketError::Overflow);
                },
            };
        }
        i = i + 1;
    }
    proof {
        assert(attestations@.subrange(0, n as int) =~= attestations@);
    }
    let final_outcome = w_yes > w_no;
    let confidence = if final_outcome {
        w_yes
    } else {
        w_no
    };
    Ok(ResolutionResult { final_outcome, confidence })
}

/// If adding the next attestation's weight to either running total would
/// overflow, the collection as a whole does not fit.
proof fn lemma_weight_overflow_means_unfit(atts: Seq<Attestation>, i: int)
    requires
        0 <= i < atts.len(),
        yes_weight(atts.subrange(0, i).push(atts[i])) > u64::MAX || no_weight(
            atts.subrange(0, i).push(atts[i]),
        ) > u64::MAX,
    ensures
        !resolution_fits(atts),
{
    lemma_weight_step_props();
    assert(atts.subrange(0, i).push(atts[i]) =~= atts.subrange(0, i + 1));
    lemma_fold_split(atts, yes_weight_step(), i + 1);
    lemma_fold_split(atts, no_weight_step(), i + 1);
    lemma_fold_nonneg(atts.subrange(i + 1, atts.len() as int), yes_weight_step());
    lemma_fold_nonneg(atts.subrange(i + 1, atts.len() as int), no_weight_step());
}

} // verus!
