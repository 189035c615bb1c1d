use private_markets::batch::{batch_clear, BatchOrder};
use private_markets::errors::MarketError;
use private_markets::state::Side;

fn order(amount: u64, side: Side, limit_price: u64) -> BatchOrder {
    BatchOrder { amount, side, limit_price }
}

#[test]
fn clears_no_heavy_batch_at_its_share() {
    // D_yes = 300, D_no = 700: price = 700 * 1000 / 1000 = 700; above the
    // midpoint, so NO fills fully and YES at half, and each reserve grows
    // by the opposite side's fill.
    let orders = vec![order(300, Side::Yes, 0), order(700, Side::No, 0)];
    let r = batch_clear(&orders, 1_000, 2_000).unwrap();
    assert_eq!(r.clearing_price, 700);
    assert_eq!(r.total_no_filled, 700);
    assert_eq!(r.total_yes_filled, 150);
    assert_eq!(r.new_yes_reserves, 1_000 + 700);
    assert_eq!(r.new_no_reserves, 2_000 + 150);
}

#[test]
fn clears_yes_heavy_batch_symmetrically() {
    // D_yes = 700, D_no = 300: price = 300, below the midpoint, so YES
    // fills fully and NO at half.
    let orders = vec![order(700, Side::Yes, 0), order(300, Side::No, 0)];
    let r = batch_clear(&orders, 10, 20).unwrap();
    assert_eq!(r.clearing_price, 300);
    assert_eq!(r.total_yes_filled, 700);
    assert_eq!(r.total_no_filled, 150);
    assert_eq!(r.new_yes_reserves, 10 + 150);
    assert_eq!(r.new_no_reserves, 20 + 700);
}

#[test]
fn clears_balanced_batch_at_midpoint_halving_both() {
    let orders = vec![order(400, Side::Yes, 0), order(400, Side::No, 0)];
    let r = batch_clear(&orders, 0, 0).unwrap();
    assert_eq!(r.clearing_price, 500);
    assert_eq!(r.total_yes_filled, 200);
    assert_eq!(r.total_no_filled, 200);
    assert_eq!(r.new_yes_reserves, 200);
    assert_eq!(r.new_no_reserves, 200);
}

#[test]
fn defaults_to_midpoint_when_one_side_is_empty() {
    let orders = vec![order(900, Side::Yes, 0)];
    let r = batch_clear(&orders, 5, 5).unwrap();
    assert_eq!(r.clearing_price, 500);
    // at the midpoint YES fills at half; the empty NO side fills nothing
    assert_eq!(r.total_yes_filled, 450);
    assert_eq!(r.total_no_filled, 0);
    assert_eq!(r.new_yes_reserves, 5);
    assert_eq!(r.new_no_reserves, 5 + 450);
}

#[test]
fn clears_empty_batch_at_midpoint() {
    let orders: Vec<BatchOrder> = Vec::new();
    let r = batch_clear(&orders, 11, 22).unwrap();
    assert_eq!(r.clearing_price, 500);
    assert_eq!(r.total_yes_filled, 0);
    assert_eq!(r.total_no_filled, 0);
    assert_eq!(r.new_yes_reserves, 11);
    assert_eq!(r.new_no_reserves, 22);
}

#[test]
fn clearing_is_invariant_under_order_permutation() {
    let a = vec![
        order(100, Side::Yes, 10),
        order(250, Side::No, 20),
        order(200, Side::Yes, 30),
        order(450, Side::No, 40),
    ];
    let mut b = a.clone();
    b.reverse();
    b.swap(1, 2);
    let ra = batch_clear(&a, 777, 888).unwrap();
    let rb = batch_clear(&b, 777, 888).unwrap();
    assert_eq!(ra, rb);
}

#[test]
fn rejects_demand_overflow() {
    let orders = vec![order(u64::MAX, Side::Yes, 0), order(1, Side::Yes, 0)];
    assert_eq!(batch_clear(&orders, 0, 0), Err(MarketError::Overflow));
}

#[test]
fn rejects_reserve_overflow() {
    // YES demand of 600 and an empty NO side: midpoint price, YES fills
    // 300, which no longer fits on top of the NO reserve.
    let orders = vec![order(600, Side::Yes, 0)];
    assert_eq!(batch_clear(&orders, 0, u64::MAX - 100), Err(MarketError::Overflow));
}
