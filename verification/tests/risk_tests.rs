use zero_day_futures::{
    clamp_i128_to_i64, compute_health_and_pnl, pnl_unrealized, required_margin, Account,
    OraclePrice, Position, RiskError,
};

#[test]
fn test_required_margin() {
    assert_eq!(required_margin(1_000, 100, 10), 10_000);
}

#[test]
fn test_pnl_long_gain() {
    let p = Position {
        trader: "t".into(),
        entry_price: 100,
        qty: 1_000,
        leverage: 10,
        margin: 10_000,
        opened_ts: 0,
        expiry_ts: 86_400,
    };
    let m = OraclePrice { price: 110, conf: 0, ts: 0 };
    assert_eq!(pnl_unrealized(&p, &m), 10_000);
}

#[test]
fn test_pnl_short_negates() {
    // Antisymmetry on concrete values: the flipped short position loses
    // exactly what the long gains.
    let long = Position {
        trader: "t".into(),
        entry_price: 100,
        qty: 1_000,
        leverage: 10,
        margin: 10_000,
        opened_ts: 0,
        expiry_ts: 86_400,
    };
    let short = Position { qty: -1_000, ..long.clone() };
    let m = OraclePrice { price: 110, conf: 0, ts: 0 };
    assert_eq!(pnl_unrealized(&long, &m), 10_000);
    assert_eq!(pnl_unrealized(&short, &m), -10_000);
}

#[test]
fn test_required_margin_leverage() {
    // At leverage 1 the margin is the full notional; higher leverage only
    // ever lowers it; leverage 0 is treated as 1.
    assert_eq!(required_margin(1_000, 100, 1), 100_000);
    assert_eq!(required_margin(1_000, 100, 0), 100_000);
    assert_eq!(required_margin(1_000, 100, 20), 5_000);
    assert!(required_margin(1_000, 100, 20) <= required_margin(1_000, 100, 10));
    // Signs never matter: margin is over magnitudes.
    assert_eq!(required_margin(-1_000, 100, 10), 10_000);
    assert_eq!(required_margin(1_000, -100, 10), 10_000);
    // Truncation toward zero.
    assert_eq!(required_margin(10, 10, 3), 33);
}

#[test]
fn test_margin_health_bps() {
    // Flat mark: equity is collateral minus locked margin, health 100%.
    let acc = Account { collateral: 20_000, locked_margin: 10_000 };
    let p = Position {
        trader: "t".into(),
        entry_price: 100,
        qty: 1_000,
        leverage: 10,
        margin: 10_000,
        opened_ts: 0,
        expiry_ts: 86_400,
    };
    let (pnl, health) = compute_health_and_pnl(&acc, Some(&p), 100);
    assert_eq!(pnl, 0);
    assert_eq!(health, Some(10_000));
    // A winning mark raises both.
    let (pnl, health) = compute_health_and_pnl(&acc, Some(&p), 110);
    assert_eq!(pnl, 10_000);
    assert_eq!(health, Some(20_000));
    // No locked margin: nothing at risk, no health figure.
    let idle = Account { collateral: 500, locked_margin: 0 };
    let (pnl, health) = compute_health_and_pnl(&idle, None, 110);
    assert_eq!(pnl, 0);
    assert_eq!(health, None);
    // Negative equity is reported as-is in the snapshot variant.
    let thin = Account { collateral: 100, locked_margin: 1_000 };
    let (_, health) = compute_health_and_pnl(&thin, None, 110);
    assert_eq!(health, Some(-9_000));
}

#[test]
fn test_clamp_i128_to_i64() {
    assert_eq!(clamp_i128_to_i64(0), 0);
    assert_eq!(clamp_i128_to_i64(-42), -42);
    assert_eq!(clamp_i128_to_i64(i128::MAX), i64::MAX);
    assert_eq!(clamp_i128_to_i64(i128::MIN), i64::MIN);
    assert_eq!(clamp_i128_to_i64(i64::MAX as i128 + 1), i64::MAX);
    assert_eq!(clamp_i128_to_i64(i64::MIN as i128 - 1), i64::MIN);
}

#[test]
fn test_risk_error_carries_amounts() {
    let e = RiskError::InsufficientCollateral { needed: 500, have: 100 };
    match e {
        RiskError::InsufficientCollateral { needed, have } => {
            assert_eq!(needed, 500);
            assert_eq!(have, 100);
        },
    }
}
