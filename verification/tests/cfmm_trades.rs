use private_markets::cfmm::{implied_price, private_trade, CfmmState, PrivateTradeInput};
use private_markets::errors::MarketError;
use private_markets::state::Side;

fn trade(amount: u64, side: Side, max_price: Option<u64>) -> PrivateTradeInput {
    PrivateTradeInput { user_amount: amount, side, max_price }
}

#[test]
fn yes_buy_grows_only_yes_reserves() {
    let state = CfmmState { yes_reserves: 100, no_reserves: 200 };
    let r = private_trade(&trade(40, Side::Yes, None), &state).unwrap();
    assert_eq!(r, CfmmState { yes_reserves: 140, no_reserves: 200 });
}

#[test]
fn no_buy_grows_only_no_reserves() {
    let state = CfmmState { yes_reserves: 100, no_reserves: 200 };
    let r = private_trade(&trade(40, Side::No, None), &state).unwrap();
    assert_eq!(r, CfmmState { yes_reserves: 100, no_reserves: 240 });
}

#[test]
fn implied_price_is_opposite_share_of_total() {
    // YES price with reserves (300, 700): 700 * 1000 / 1000 = 700.
    assert_eq!(implied_price(Side::Yes, 300, 700), 700);
    assert_eq!(implied_price(Side::No, 300, 700), 300);
    // empty reserves: midpoint
    assert_eq!(implied_price(Side::Yes, 0, 0), 500);
}

#[test]
fn rejects_trade_beyond_price_cap() {
    // After buying 100 YES on (100, 700): price = 700 * 1000 / 900 = 777.
    let state = CfmmState { yes_reserves: 100, no_reserves: 700 };
    let r = private_trade(&trade(100, Side::Yes, Some(700)), &state);
    assert_eq!(r, Err(MarketError::SlippageExceeded));
}

#[test]
fn accepts_trade_within_price_cap() {
    let state = CfmmState { yes_reserves: 100, no_reserves: 700 };
    let r = private_trade(&trade(100, Side::Yes, Some(777)), &state).unwrap();
    assert_eq!(r, CfmmState { yes_reserves: 200, no_reserves: 700 });
}

#[test]
fn rejects_trade_reserve_overflow() {
    let state = CfmmState { yes_reserves: u64::MAX - 5, no_reserves: 1 };
    let r = private_trade(&trade(6, Side::Yes, None), &state);
    assert_eq!(r, Err(MarketError::Overflow));
}
