use private_markets::events::{
    AttestationSubmitted, BatchCleared, MarketResolved, PrivateTradeExecuted, PrivateTradeQueued,
};
use private_markets::gateway::{ComputationGateway, ComputationOutcome};
use private_markets::market::create_market;
use private_markets::resolution::ResolutionResult;
use private_markets::state::{Commitment, ResolverStore};

#[test]
fn event_builders_carry_market_fields() {
    let m = create_market(9, 7, vec![b'q'; 4], 1_000, 100, 300, 2, 10).unwrap();
    assert_eq!(
        m.trade_queued_event(42, 55),
        PrivateTradeQueued { market: 9, user: 42, timestamp: 55 }
    );
    assert_eq!(
        m.trade_executed_event(30, 56),
        PrivateTradeExecuted { market: 9, volume_delta: 30, timestamp: 56 }
    );
    assert_eq!(
        m.batch_cleared_event(700, 57),
        BatchCleared { market: 9, uniform_price: 700, timestamp: 57 }
    );
    // unresolved markets report the 255 sentinel byte
    assert_eq!(
        m.market_resolved_event(58),
        MarketResolved { market: 9, outcome: 255, timestamp: 58 }
    );
    assert_eq!(
        m.attestation_event(42, 59),
        AttestationSubmitted { market: 9, resolver: 42, timestamp: 59, count: 0, quorum: 2 }
    );
}

#[test]
fn resolved_event_carries_outcome_byte() {
    let mut m = create_market(9, 7, vec![b'q'; 4], 1_000, 100, 300, 1, 10).unwrap();
    let mut store = ResolverStore::new();
    let mut gateway = ComputationGateway::new();
    m.stake_resolver(&mut store, 42, 1_000_000, 10).unwrap();
    assert_eq!(
        m.submit_attestation(&mut store, &mut gateway, 42, 70, Commitment::new([1; 32]), 2_000),
        Ok(true)
    );
    assert_eq!(
        m.attestation_event(42, 61),
        AttestationSubmitted { market: 9, resolver: 42, timestamp: 61, count: 1, quorum: 1 }
    );
    let tally = ResolutionResult { final_outcome: false, confidence: 8 };
    m.resolve_market_callback(&mut gateway, 70, ComputationOutcome::Success(tally)).unwrap();
    // NO travels as byte 0
    assert_eq!(m.market_resolved_event(62), MarketResolved { market: 9, outcome: 0, timestamp: 62 });
}
