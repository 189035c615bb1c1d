use private_markets::cfmm::CfmmState;
use private_markets::errors::MarketError;
use private_markets::gateway::{ComputationGateway, ComputationKind, ComputationOutcome};
use private_markets::market::create_market;
use private_markets::state::{Commitment, Market};

fn commitment(tag: u8) -> Commitment {
    Commitment::new([tag; 32])
}

fn active_market() -> Market {
    create_market(1, 7, vec![b'q'; 10], 1_000, 100, 300, 3, 10).unwrap()
}

#[test]
fn queues_at_most_one_computation_per_market_and_kind() {
    let mut g = ComputationGateway::new();
    assert_eq!(g.queue(10, 1, ComputationKind::Trade), Ok(()));
    // same handle again, even for another market or kind
    assert_eq!(g.queue(10, 2, ComputationKind::Resolution), Err(MarketError::ComputationOutstanding));
    // same kind outstanding for the same market
    assert_eq!(g.queue(11, 1, ComputationKind::Trade), Err(MarketError::ComputationOutstanding));
    // another kind for the same market, and the same kind for another
    // market, are both fine
    assert_eq!(g.queue(12, 1, ComputationKind::BatchClear), Ok(()));
    assert_eq!(g.queue(13, 2, ComputationKind::Trade), Ok(()));
    assert_eq!(g.len(), 3);
}

#[test]
fn delivery_retires_the_handle() {
    let mut g = ComputationGateway::new();
    g.queue(10, 1, ComputationKind::Trade).unwrap();
    let p = g.deliver(10).unwrap();
    assert_eq!(p.offset, 10);
    assert_eq!(p.market_id, 1);
    assert_eq!(p.kind, ComputationKind::Trade);
    assert_eq!(g.len(), 0);
    assert_eq!(g.deliver(10), Err(MarketError::UnknownComputation));
    // after retirement the same kind can be queued again
    assert_eq!(g.queue(20, 1, ComputationKind::Trade), Ok(()));
}

#[test]
fn rejects_unknown_handles() {
    let mut g = ComputationGateway::new();
    assert_eq!(g.deliver(99), Err(MarketError::UnknownComputation));
}

#[test]
fn trade_callback_applies_result_exactly_once() {
    let mut m = active_market();
    m.update_cfmm_state(commitment(1), 100, 200).unwrap();
    let mut g = ComputationGateway::new();
    assert_eq!(m.submit_private_trade(&mut g, 50, 10), Ok(()));
    assert_eq!(
        m.submit_private_trade(&mut g, 51, 10),
        Err(MarketError::ComputationOutstanding)
    );

    let result = CfmmState { yes_reserves: 160, no_reserves: 200 };
    let outcome = ComputationOutcome::Success(result);
    assert_eq!(m.private_trade_callback(&mut g, 50, outcome, commitment(2)), Ok(()));
    assert_eq!(m.yes_reserves, 160);
    assert_eq!(m.no_reserves, 200);
    assert_eq!(m.total_volume, 60);

    // delivering the same callback again is rejected without mutating the
    // market
    let again = ComputationOutcome::Success(CfmmState { yes_reserves: 999, no_reserves: 999 });
    assert_eq!(
        m.private_trade_callback(&mut g, 50, again, commitment(3)),
        Err(MarketError::UnknownComputation)
    );
    assert_eq!(m.yes_reserves, 160);
    assert_eq!(m.no_reserves, 200);
    assert_eq!(m.total_volume, 60);
}

#[test]
fn trade_callback_rejects_wrong_kind_without_retiring() {
    let mut m = active_market();
    let mut g = ComputationGateway::new();
    g.queue(50, 1, ComputationKind::BatchClear).unwrap();
    let outcome = ComputationOutcome::Success(CfmmState { yes_reserves: 1, no_reserves: 1 });
    assert_eq!(
        m.private_trade_callback(&mut g, 50, outcome, commitment(2)),
        Err(MarketError::Unauthorized)
    );
    assert_eq!(g.len(), 1);
}

#[test]
fn trade_callback_surfaces_failure_and_retires_handle() {
    let mut m = active_market();
    let mut g = ComputationGateway::new();
    assert_eq!(m.submit_private_trade(&mut g, 50, 10), Ok(()));
    let failed: ComputationOutcome<CfmmState> = ComputationOutcome::Failure;
    assert_eq!(
        m.private_trade_callback(&mut g, 50, failed, commitment(2)),
        Err(MarketError::ComputationFailed)
    );
    assert_eq!(m.yes_reserves, 0);
    assert_eq!(g.len(), 0);
    let aborted: ComputationOutcome<CfmmState> = ComputationOutcome::Aborted;
    assert_eq!(m.submit_private_trade(&mut g, 51, 11), Ok(()));
    assert_eq!(
        m.private_trade_callback(&mut g, 51, aborted, commitment(2)),
        Err(MarketError::ComputationAborted)
    );
}

#[test]
fn trade_callback_rejects_shrinking_reserves() {
    let mut m = active_market();
    m.update_cfmm_state(commitment(1), 100, 200).unwrap();
    let mut g = ComputationGateway::new();
    assert_eq!(m.submit_private_trade(&mut g, 50, 10), Ok(()));
    let shrunk = ComputationOutcome::Success(CfmmState { yes_reserves: 99, no_reserves: 200 });
    assert_eq!(
        m.private_trade_callback(&mut g, 50, shrunk, commitment(2)),
        Err(MarketError::InvalidCfmmState)
    );
    assert_eq!(m.yes_reserves, 100);
    // the handle was consumed by the rejected delivery
    assert_eq!(g.len(), 0);
}

#[test]
fn trade_callback_rejects_zero_sentinel_commitment() {
    let mut m = active_market();
    let mut g = ComputationGateway::new();
    assert_eq!(m.submit_private_trade(&mut g, 50, 10), Ok(()));
    let outcome = ComputationOutcome::Success(CfmmState { yes_reserves: 5, no_reserves: 5 });
    assert_eq!(
        m.private_trade_callback(&mut g, 50, outcome, Commitment::zero()),
        Err(MarketError::InvalidStateCommitment)
    );
}

#[test]
fn trade_submission_requires_open_market() {
    let m = active_market();
    let mut g = ComputationGateway::new();
    assert_eq!(m.submit_private_trade(&mut g, 50, 1_000), Err(MarketError::MarketEnded));
    assert_eq!(g.len(), 0);
}
