use private_markets::batch::{batch_clear, BatchClearResult, BatchOrder};
use private_markets::errors::MarketError;
use private_markets::gateway::{ComputationGateway, ComputationOutcome};
use private_markets::market::create_market;
use private_markets::state::{Commitment, Market, Side};

fn commitment(tag: u8) -> Commitment {
    Commitment::new([tag; 32])
}

/// A market whose first batch window closes at 310.
fn active_market() -> Market {
    create_market(1, 7, vec![b'q'; 10], 100_000, 100, 300, 3, 10).unwrap()
}

#[test]
fn batch_orders_accepted_only_inside_open_window() {
    let mut m = active_market();
    let mut g = ComputationGateway::new();
    assert_eq!(m.submit_batch_order(&mut g, 60, commitment(1), 2, 10), Ok(()));
    assert_eq!(m.batch_order_count, 2);
    assert_eq!(m.batch_order_root, commitment(1));
    assert_eq!(g.len(), 1);
    // a second batch-clear computation cannot be queued while one is
    // outstanding
    assert_eq!(
        m.submit_batch_order(&mut g, 61, commitment(2), 1, 20),
        Err(MarketError::ComputationOutstanding)
    );
    assert_eq!(m.batch_order_count, 2);
}

#[test]
fn batch_orders_rejected_after_window_closes() {
    let mut m = active_market();
    let mut g = ComputationGateway::new();
    assert_eq!(
        m.submit_batch_order(&mut g, 60, commitment(1), 2, 310),
        Err(MarketError::BatchWindowOpen)
    );
    assert_eq!(
        m.submit_batch_order(&mut g, 60, commitment(1), 2, 100_000),
        Err(MarketError::MarketEnded)
    );
}

#[test]
fn apply_batch_clear_waits_for_window_close_and_advances_schedule() {
    let mut m = active_market();
    assert_eq!(
        m.apply_batch_clear(commitment(3), 700, 309),
        Err(MarketError::BatchWindowOpen)
    );
    assert_eq!(
        m.apply_batch_clear(Commitment::zero(), 700, 500),
        Err(MarketError::InvalidStateCommitment)
    );
    assert_eq!(
        m.apply_batch_clear(commitment(3), 1_001, 500),
        Err(MarketError::InvalidCfmmState)
    );
    // applied at 500, the next window closes at 500 + 300: the cadence
    // rolls from the clearing time, not the original schedule
    assert_eq!(m.apply_batch_clear(commitment(3), 700, 500), Ok(()));
    assert_eq!(m.next_batch_clear, 800);
    assert_eq!(m.batch_order_count, 0);
    assert!(m.batch_order_root.is_zero());
}

#[test]
fn batch_clear_callback_applies_cleared_batch() {
    let mut m = active_market();
    let mut g = ComputationGateway::new();
    m.update_cfmm_state(commitment(1), 1_000, 2_000).unwrap();
    assert_eq!(m.submit_batch_order(&mut g, 70, commitment(2), 2, 10), Ok(()));

    // the confidential clearing over the private orders
    let orders = vec![
        BatchOrder { amount: 300, side: Side::Yes, limit_price: 0 },
        BatchOrder { amount: 700, side: Side::No, limit_price: 0 },
    ];
    let result = batch_clear(&orders, m.yes_reserves, m.no_reserves).unwrap();
    assert_eq!(result.clearing_price, 700);

    // the callback arrives once the window has closed
    assert_eq!(
        m.batch_clear_callback(&mut g, 70, ComputationOutcome::Success(result), commitment(4), 100),
        Err(MarketError::BatchWindowOpen)
    );
    // the rejected delivery consumed the handle; queue and deliver again
    assert_eq!(g.len(), 0);
    assert_eq!(m.submit_batch_order(&mut g, 71, commitment(2), 1, 20), Ok(()));
    assert_eq!(
        m.batch_clear_callback(&mut g, 71, ComputationOutcome::Success(result), commitment(4), 400),
        Ok(())
    );
    assert_eq!(m.yes_reserves, 1_700);
    assert_eq!(m.no_reserves, 2_150);
    assert_eq!(m.total_volume, 850);
    assert_eq!(m.batch_order_count, 0);
    assert!(m.batch_order_root.is_zero());
    assert_eq!(m.next_batch_clear, 700);

    // a second delivery of the retired handle changes nothing
    assert_eq!(
        m.batch_clear_callback(&mut g, 71, ComputationOutcome::Success(result), commitment(4), 400),
        Err(MarketError::UnknownComputation)
    );
    assert_eq!(m.yes_reserves, 1_700);
}

#[test]
fn batch_clear_callback_rejects_inconsistent_reserves() {
    let mut m = active_market();
    let mut g = ComputationGateway::new();
    m.update_cfmm_state(commitment(1), 1_000, 2_000).unwrap();
    assert_eq!(m.submit_batch_order(&mut g, 70, commitment(2), 1, 10), Ok(()));
    // a result whose new reserves do not equal the current reserves grown
    // by the opposite fill is rejected
    let bogus = BatchClearResult {
        clearing_price: 700,
        total_yes_filled: 150,
        total_no_filled: 700,
        new_yes_reserves: 1_699,
        new_no_reserves: 2_150,
    };
    assert_eq!(
        m.batch_clear_callback(&mut g, 70, ComputationOutcome::Success(bogus), commitment(4), 400),
        Err(MarketError::InvalidCfmmState)
    );
    assert_eq!(m.yes_reserves, 1_000);
    assert_eq!(m.no_reserves, 2_000);
}

#[test]
fn batch_clear_callback_surfaces_failure() {
    let mut m = active_market();
    let mut g = ComputationGateway::new();
    assert_eq!(m.submit_batch_order(&mut g, 70, commitment(2), 1, 10), Ok(()));
    let failed: ComputationOutcome<BatchClearResult> = ComputationOutcome::Failure;
    assert_eq!(
        m.batch_clear_callback(&mut g, 70, failed, commitment(4), 400),
        Err(MarketError::ComputationFailed)
    );
    assert_eq!(m.batch_order_count, 1);
    assert_eq!(g.len(), 0);
}
