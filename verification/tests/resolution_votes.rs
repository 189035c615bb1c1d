use private_markets::errors::MarketError;
use private_markets::resolution::{resolve_market, Attestation, ResolutionResult};

fn vote(outcome: bool, weight: u64) -> Attestation {
    Attestation { outcome, weight }
}

#[test]
fn aggregates_weighted_majority() {
    // R1 (weight 10, YES), R2 (weight 5, NO), R3 (weight 20, YES):
    // 30 YES against 5 NO resolves YES with confidence 30.
    let atts = vec![vote(true, 10), vote(false, 5), vote(true, 20)];
    let r = resolve_market(&atts).unwrap();
    assert_eq!(r, ResolutionResult { final_outcome: true, confidence: 30 });
}

#[test]
fn resolves_no_majority() {
    let atts = vec![vote(true, 10), vote(false, 25)];
    let r = resolve_market(&atts).unwrap();
    assert_eq!(r, ResolutionResult { final_outcome: false, confidence: 25 });
}

#[test]
fn ties_resolve_to_no() {
    let atts = vec![vote(true, 15), vote(false, 15)];
    let r = resolve_market(&atts).unwrap();
    assert!(!r.final_outcome);
    assert_eq!(r.confidence, 15);
}

#[test]
fn empty_tally_resolves_to_no_with_zero_confidence() {
    let atts: Vec<Attestation> = Vec::new();
    let r = resolve_market(&atts).unwrap();
    assert!(!r.final_outcome);
    assert_eq!(r.confidence, 0);
}

#[test]
fn tally_is_invariant_under_permutation() {
    let a = vec![vote(true, 3), vote(false, 9), vote(true, 7), vote(false, 1)];
    let mut b = a.clone();
    b.reverse();
    assert_eq!(resolve_market(&a).unwrap(), resolve_market(&b).unwrap());
}

#[test]
fn rejects_weight_overflow() {
    let atts = vec![vote(false, u64::MAX), vote(false, 1)];
    assert_eq!(resolve_market(&atts), Err(MarketError::Overflow));
}
