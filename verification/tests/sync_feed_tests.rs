use zero_day_futures::feed::drift_step;
use zero_day_futures::sync::{
    effective_order_id, next_local_order_id, select_mode, should_commit, SyncMode, LOCAL_ID_BASE,
};
use zero_day_futures::types::Side;
use zero_day_futures::venue::Venue;

#[test]
fn test_drift_step_moves_and_flips() {
    // tick 0: step 1, and tick % 7 == 0 flips the direction.
    assert_eq!(drift_step(100, 1, 0), (101, -1));
    // tick 1: step 2, no flip.
    assert_eq!(drift_step(100, 1, 1), (102, 1));
    // tick 2: step 3.
    assert_eq!(drift_step(100, -1, 2), (97, -1));
}

#[test]
fn test_drift_step_clamps_at_band_edges() {
    // Hitting the ceiling clamps the price and flips the direction.
    assert_eq!(drift_step(149, 1, 2), (150, -1));
    // Hitting the floor does the same.
    assert_eq!(drift_step(51, -1, 2), (50, 1));
    // The price never leaves the band.
    let mut price: i128 = 100;
    let mut dir: i128 = 1;
    for tick in 0..200u64 {
        let (p, d) = drift_step(price, dir, tick);
        assert!((50..=150).contains(&p));
        assert!(d == 1 || d == -1);
        price = p;
        dir = d;
    }
}

#[test]
fn test_settlement_mode_selection() {
    assert_eq!(select_mode(true), SyncMode::Authoritative);
    assert_eq!(select_mode(false), SyncMode::LocalOnly);
}

#[test]
fn test_authoritative_id_supersedes_local() {
    assert_eq!(effective_order_id(Some(7), 99), 7);
    assert_eq!(effective_order_id(None, 99), 99);
}

#[test]
fn test_local_ids_do_not_collide_with_authoritative() {
    let id = next_local_order_id(1, 2);
    assert_eq!(id, LOCAL_ID_BASE + 4);
    assert!(id > LOCAL_ID_BASE);
}

#[test]
fn test_commit_policy_is_at_least_once() {
    // Local-only mode commits immediately; authoritative mode commits only
    // after successful propagation, so a failed call leaves orders resting.
    assert!(should_commit(SyncMode::LocalOnly, false));
    assert!(should_commit(SyncMode::LocalOnly, true));
    assert!(!should_commit(SyncMode::Authoritative, false));
    assert!(should_commit(SyncMode::Authoritative, true));
}

#[test]
fn test_snapshot_rows() {
    let mut v = Venue::new(1, true);
    v.deposit(10, 8_000).unwrap();
    v.deposit(20, 500).unwrap();
    v.place_order(10, 0, Side::Buy, 70, 100, 1, 1_000).unwrap();
    let rows = v.snapshot(70);
    assert_eq!(rows.len(), 2);
    let alice = &rows[0];
    assert_eq!(alice.trader, 10);
    assert_eq!(alice.collateral, 8_000);
    assert_eq!(alice.locked_margin, 7_000);
    assert_eq!(alice.qty, 0);
    assert_eq!(alice.pnl, 0);
    // equity = 8000 - 7000 = 1000 over 7000 locked: 1428 bps, truncating.
    assert_eq!(alice.health_bps, Some(1_428));
    assert_eq!(alice.nonce, 0);
    let bob = &rows[1];
    assert_eq!(bob.trader, 20);
    assert_eq!(bob.collateral, 500);
    assert_eq!(bob.locked_margin, 0);
    assert_eq!(bob.health_bps, None);
}
