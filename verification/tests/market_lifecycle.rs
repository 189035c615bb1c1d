use private_markets::errors::MarketError;
use private_markets::gateway::{ComputationGateway, ComputationOutcome};
use private_markets::market::create_market;
use private_markets::resolution::{resolve_market, Attestation, ResolutionResult};
use private_markets::state::{Commitment, Market, ResolutionState, ResolverStore, Side};

const MIN_STAKE: u64 = 1_000_000;

fn question(len: usize) -> Vec<u8> {
    vec![b'q'; len]
}

fn commitment(tag: u8) -> Commitment {
    Commitment::new([tag; 32])
}

fn active_market() -> Market {
    create_market(1, 7, question(10), 1_000, 100, 300, 3, 10).unwrap()
}

#[test]
fn creates_market_in_active_state() {
    let m = active_market();
    assert_eq!(m.id, 1);
    assert_eq!(m.creator, 7);
    assert_eq!(m.end_time, 1_000);
    assert_eq!(m.next_batch_clear, 310);
    assert_eq!(m.resolver_quorum, 3);
    assert_eq!(m.resolver_count, 0);
    assert_eq!(m.attestation_count, 0);
    assert_eq!(m.yes_reserves, 0);
    assert_eq!(m.no_reserves, 0);
    assert_eq!(m.resolution_state, ResolutionState::Active);
    assert!(m.cfmm_state_commitment.is_zero());
}

#[test]
fn rejects_creation_bounds() {
    assert_eq!(
        create_market(1, 7, question(201), 1_000, 100, 300, 3, 10).unwrap_err(),
        MarketError::QuestionTooLong
    );
    assert_eq!(
        create_market(1, 7, question(10), 10, 100, 300, 3, 10).unwrap_err(),
        MarketError::InvalidEndTime
    );
    assert_eq!(
        create_market(1, 7, question(10), 1_000, 9, 300, 3, 10).unwrap_err(),
        MarketError::InvalidFeeBps
    );
    assert_eq!(
        create_market(1, 7, question(10), 1_000, 1_001, 300, 3, 10).unwrap_err(),
        MarketError::InvalidFeeBps
    );
    assert_eq!(
        create_market(1, 7, question(10), 1_000, 100, 299, 3, 10).unwrap_err(),
        MarketError::InvalidBatchInterval
    );
    assert_eq!(
        create_market(1, 7, question(10), 1_000, 100, 86_401, 3, 10).unwrap_err(),
        MarketError::InvalidBatchInterval
    );
    assert_eq!(
        create_market(1, 7, question(10), 1_000, 100, 300, 0, 10).unwrap_err(),
        MarketError::InvalidQuorum
    );
    assert_eq!(
        create_market(1, 7, question(10), 1_000, 100, 300, 11, 10).unwrap_err(),
        MarketError::InvalidQuorum
    );
    assert_eq!(
        create_market(1, 7, question(10), i64::MAX, 100, 300, 3, i64::MAX - 100).unwrap_err(),
        MarketError::Overflow
    );
}

#[test]
fn gates_deposits_on_state_time_and_amount() {
    let m = active_market();
    assert_eq!(m.deposit_collateral(50, 10), Ok(()));
    assert_eq!(m.deposit_collateral(0, 10), Err(MarketError::InsufficientCollateral));
    assert_eq!(m.deposit_collateral(50, 1_000), Err(MarketError::MarketEnded));
}

#[test]
fn gates_minting_on_creator_and_amount() {
    let m = active_market();
    assert_eq!(m.mint_outcome_tokens(7, 5), Ok(()));
    assert_eq!(m.mint_outcome_tokens(8, 5), Err(MarketError::Unauthorized));
    assert_eq!(m.mint_outcome_tokens(7, 0), Err(MarketError::InsufficientCollateral));
}

#[test]
fn stakes_resolvers_up_to_capacity_once_each() {
    let mut m = create_market(1, 7, question(10), 1_000, 100, 300, 1, 10).unwrap();
    let mut store = ResolverStore::new();
    assert_eq!(
        m.stake_resolver(&mut store, 42, MIN_STAKE - 1, 10),
        Err(MarketError::InsufficientStake)
    );
    assert_eq!(m.stake_resolver(&mut store, 42, MIN_STAKE, 10), Ok(()));
    assert_eq!(m.resolver_count, 1);
    assert_eq!(store.len(), 1);
    assert_eq!(
        m.stake_resolver(&mut store, 42, MIN_STAKE, 11),
        Err(MarketError::ResolverAlreadyStaked)
    );
    for authority in 43..52 {
        assert_eq!(m.stake_resolver(&mut store, authority, MIN_STAKE, 12), Ok(()));
    }
    assert_eq!(m.resolver_count, 10);
    assert_eq!(
        m.stake_resolver(&mut store, 99, MIN_STAKE, 13),
        Err(MarketError::InsufficientResolvers)
    );
}

#[test]
fn rejects_staking_after_end_time() {
    let mut m = active_market();
    let mut store = ResolverStore::new();
    assert_eq!(m.stake_resolver(&mut store, 42, MIN_STAKE, 1_000), Err(MarketError::MarketEnded));
}

/// Stake three resolvers with quorum three and drive the full resolution:
/// the transition to `Computing` fires on the third attestation exactly,
/// the queued tally resolves YES with confidence 30, and redemption is
/// gated on the winning side.
#[test]
fn quorum_fires_on_exact_attestation_and_resolution_completes() {
    let mut m = active_market();
    let mut store = ResolverStore::new();
    let mut gateway = ComputationGateway::new();
    for authority in [1u64, 2, 3] {
        assert_eq!(m.stake_resolver(&mut store, authority, MIN_STAKE, 10), Ok(()));
    }

    // before end time no attestation is accepted
    assert_eq!(
        m.submit_attestation(&mut store, &mut gateway, 1, 900, commitment(1), 500),
        Err(MarketError::MarketNotEnded)
    );

    assert_eq!(m.submit_attestation(&mut store, &mut gateway, 1, 901, commitment(1), 2_000), Ok(false));
    assert_eq!(m.resolution_state, ResolutionState::AwaitingAttestation);
    assert_eq!(m.attestation_count, 1);
    assert_eq!(gateway.len(), 0);

    // an empty payload and a repeated attestation are rejected
    assert_eq!(
        m.submit_attestation(&mut store, &mut gateway, 2, 902, Commitment::zero(), 2_000),
        Err(MarketError::InvalidAttestation)
    );
    assert_eq!(
        m.submit_attestation(&mut store, &mut gateway, 1, 903, commitment(1), 2_000),
        Err(MarketError::AlreadyAttested)
    );
    // an identity without a resolver record is rejected
    assert_eq!(
        m.submit_attestation(&mut store, &mut gateway, 9, 904, commitment(9), 2_000),
        Err(MarketError::Unauthorized)
    );

    assert_eq!(m.submit_attestation(&mut store, &mut gateway, 2, 905, commitment(2), 2_100), Ok(false));
    assert_eq!(m.resolution_state, ResolutionState::AwaitingAttestation);
    assert_eq!(gateway.len(), 0);

    // the third attestation crosses the quorum: it alone fires the
    // transition and queues the resolution computation
    assert_eq!(m.submit_attestation(&mut store, &mut gateway, 3, 906, commitment(3), 2_200), Ok(true));
    assert_eq!(m.resolution_state, ResolutionState::Computing);
    assert_eq!(m.attestation_count, 3);
    assert_eq!(gateway.len(), 1);

    // once computing, further attestations are rejected
    assert_eq!(
        m.submit_attestation(&mut store, &mut gateway, 2, 907, commitment(2), 2_300),
        Err(MarketError::MarketAlreadyResolved)
    );

    // the confidential tally over the private votes
    let votes = vec![
        Attestation { outcome: true, weight: 10 },
        Attestation { outcome: false, weight: 5 },
        Attestation { outcome: true, weight: 20 },
    ];
    let tally = resolve_market(&votes).unwrap();
    assert_eq!(tally, ResolutionResult { final_outcome: true, confidence: 30 });

    assert_eq!(
        m.resolve_market_callback(&mut gateway, 906, ComputationOutcome::Success(tally)),
        Ok(())
    );
    assert_eq!(m.resolution_state, ResolutionState::Resolved);
    assert_eq!(gateway.len(), 0);

    // redemption is outcome-gated: YES won, so NO-side tokens fail and
    // YES-side tokens redeem one to one
    assert_eq!(m.redeem_tokens(Side::No, 25), Err(MarketError::OutcomeMismatch));
    assert_eq!(m.redeem_tokens(Side::Yes, 0), Err(MarketError::InsufficientCollateral));
    assert_eq!(m.redeem_tokens(Side::Yes, 25), Ok(25));
}

#[test]
fn failed_resolution_leaves_market_computing_for_retry() {
    let mut m = create_market(1, 7, question(10), 1_000, 100, 300, 1, 10).unwrap();
    let mut store = ResolverStore::new();
    let mut gateway = ComputationGateway::new();
    assert_eq!(m.stake_resolver(&mut store, 42, MIN_STAKE, 10), Ok(()));
    assert_eq!(m.submit_attestation(&mut store, &mut gateway, 42, 700, commitment(4), 2_000), Ok(true));
    assert_eq!(m.resolution_state, ResolutionState::Computing);

    let failed: ComputationOutcome<ResolutionResult> = ComputationOutcome::Failure;
    assert_eq!(
        m.resolve_market_callback(&mut gateway, 700, failed),
        Err(MarketError::ComputationFailed)
    );
    assert_eq!(m.resolution_state, ResolutionState::Computing);
    assert_eq!(gateway.len(), 0);

    // the manual retry path finalizes the outcome
    assert_eq!(m.resolve_market(2, &vec![1u8]), Err(MarketError::InvalidOutcome));
    assert_eq!(m.resolve_market(1, &Vec::new()), Err(MarketError::InvalidAttestation));
    assert_eq!(m.resolve_market(1, &vec![1u8]), Ok(()));
    assert_eq!(m.resolution_state, ResolutionState::Resolved);
    assert_eq!(m.redeem_tokens(Side::Yes, 3), Ok(3));
}

#[test]
fn manual_resolution_requires_computing_state() {
    let mut m = active_market();
    assert_eq!(m.resolve_market(1, &vec![1u8]), Err(MarketError::MarketNotResolved));
    assert_eq!(m.redeem_tokens(Side::Yes, 3), Err(MarketError::MarketNotResolved));
}

#[test]
fn updates_reserves_by_signed_deltas_under_checks() {
    let mut m = active_market();
    assert_eq!(m.update_cfmm_state(commitment(5), 500, 800), Ok(()));
    assert_eq!(m.yes_reserves, 500);
    assert_eq!(m.no_reserves, 800);
    assert_eq!(m.update_cfmm_state(commitment(6), -100, 100), Ok(()));
    assert_eq!(m.yes_reserves, 400);
    assert_eq!(m.no_reserves, 900);
    // a zero-sentinel commitment, a non-positive product and overflow all
    // reject the update unapplied
    assert_eq!(
        m.update_cfmm_state(Commitment::zero(), 1, 1),
        Err(MarketError::InvalidStateCommitment)
    );
    assert_eq!(m.update_cfmm_state(commitment(7), -400, 0), Err(MarketError::InvalidCfmmState));
    assert_eq!(m.update_cfmm_state(commitment(7), -401, 0), Err(MarketError::Overflow));
    assert_eq!(m.update_cfmm_state(commitment(7), i64::MAX, i64::MAX), Ok(()));
    assert_eq!(m.update_cfmm_state(commitment(7), i64::MAX, 0), Err(MarketError::Overflow));
    assert_eq!(m.yes_reserves, 400 + i64::MAX as u64);
}

#[test]
fn accepts_question_at_maximum_length() {
    let m = create_market(1, 7, question(200), 1_000, 100, 300, 3, 10).unwrap();
    assert_eq!(m.question.len(), 200);
}

#[test]
fn snapshot_reflects_current_reserves() {
    let mut m = active_market();
    m.update_cfmm_state(commitment(1), 123, 456).unwrap();
    let snapshot = m.reserve_snapshot();
    assert_eq!(snapshot.yes_reserves, 123);
    assert_eq!(snapshot.no_reserves, 456);
}

#[test]
fn resolved_market_rejects_every_trading_operation() {
    let mut m = create_market(1, 7, question(10), 1_000, 100, 300, 1, 10).unwrap();
    let mut store = ResolverStore::new();
    let mut gateway = ComputationGateway::new();
    m.stake_resolver(&mut store, 42, MIN_STAKE, 10).unwrap();
    assert_eq!(m.submit_attestation(&mut store, &mut gateway, 42, 70, commitment(1), 2_000), Ok(true));
    let tally = ResolutionResult { final_outcome: true, confidence: 9 };
    m.resolve_market_callback(&mut gateway, 70, ComputationOutcome::Success(tally)).unwrap();

    assert_eq!(m.deposit_collateral(5, 2_100), Err(MarketError::MarketAlreadyResolved));
    assert_eq!(
        m.update_cfmm_state(commitment(2), 1, 1),
        Err(MarketError::MarketAlreadyResolved)
    );
    assert_eq!(
        m.apply_batch_clear(commitment(2), 500, 2_100),
        Err(MarketError::MarketAlreadyResolved)
    );
    assert_eq!(
        m.submit_private_trade(&mut gateway, 71, 500),
        Err(MarketError::MarketAlreadyResolved)
    );
    assert_eq!(
        m.submit_batch_order(&mut gateway, 72, commitment(2), 1, 500),
        Err(MarketError::MarketAlreadyResolved)
    );
    assert_eq!(
        m.stake_resolver(&mut store, 43, MIN_STAKE, 500),
        Err(MarketError::MarketAlreadyResolved)
    );
    assert_eq!(
        m.submit_attestation(&mut store, &mut gateway, 42, 73, commitment(1), 2_200),
        Err(MarketError::MarketAlreadyResolved)
    );
}
