use zero_day_futures::liquidation::{LiquidationOutcome, SettleOutcome};
use zero_day_futures::matching::SweepOutcome;
use zero_day_futures::records::get_record;
use zero_day_futures::types::{ContractError, Side, SubmitError};
use zero_day_futures::venue::Venue;

const OWNER: u64 = 1;
const ALICE: u64 = 10;
const BOB: u64 = 20;

fn funded_venue() -> Venue {
    let mut v = Venue::new(OWNER, true);
    v.deposit(ALICE, 1_000_000).unwrap();
    v.deposit(BOB, 1_000_000).unwrap();
    v
}

#[test]
fn test_cross_at_midpoint_removes_both_orders() {
    // buy(102) and sell(98) cross at 100; quantities 50/80 cross at 50 and
    // both orders are removed in full, the 30 residual included.
    let mut v = funded_venue();
    let (buy_id, _) = v.place_order(ALICE, 0, Side::Buy, 102, 50, 1, 1_000).unwrap();
    let (sell_id, _) = v.place_order(BOB, 0, Side::Sell, 98, 80, 1, 1_000).unwrap();
    let outcome = v.match_orders(0).unwrap();
    match outcome {
        SweepOutcome::Trade { event, buy_id: b, sell_id: s, execution, fees } => {
            assert_eq!(event.buy, ALICE);
            assert_eq!(event.sell, BOB);
            assert_eq!(event.price, 100);
            assert_eq!(event.qty, 50);
            assert_eq!(b, buy_id);
            assert_eq!(s, sell_id);
            assert_eq!(execution.price, 100);
            assert_eq!(execution.qty, 50);
            // notional 5000: maker (earlier id, the buy) pays 2 bps -> 1,
            // taker pays 5 bps -> 2 (truncating).
            assert_eq!(fees.maker_fee, 1);
            assert_eq!(fees.taker_fee, 2);
            assert_eq!(execution.fee, 3);
        },
        other => panic!("expected a trade, got {:?}", other),
    }
    assert_eq!(v.buys.len(), 0);
    assert_eq!(v.sells.len(), 0);
    assert_eq!(v.accrued_fees, 3);
    let alice = get_record(&v.traders, ALICE);
    assert_eq!(alice.pos_qty, 50);
    assert_eq!(alice.pos_entry, 100);
    assert_eq!(alice.collateral, 1_000_000 - 1);
    let bob = get_record(&v.traders, BOB);
    assert_eq!(bob.pos_qty, -50);
    assert_eq!(bob.pos_entry, 100);
    assert_eq!(bob.collateral, 1_000_000 - 2);
}

#[test]
fn test_repeated_sweep_trades_nothing() {
    // Once the single resting pair has traded, sweeping again without new
    // admissions finds no cross: orders are removed, never re-matched.
    let mut v = funded_venue();
    v.place_order(ALICE, 0, Side::Buy, 102, 50, 1, 1_000).unwrap();
    v.place_order(BOB, 0, Side::Sell, 98, 80, 1, 1_000).unwrap();
    assert!(matches!(v.match_orders(0).unwrap(), SweepOutcome::Trade { .. }));
    assert!(matches!(v.match_orders(0).unwrap(), SweepOutcome::NoCross));
    assert!(matches!(v.match_orders(99).unwrap(), SweepOutcome::NoCross));
    assert_eq!(v.accrued_fees, 3);
}

#[test]
fn test_expired_head_rejected_not_traded() {
    // An expired head is discarded at match time without a trade; the
    // fresh opposite head keeps resting.
    let mut v = funded_venue();
    let (buy_id, _) = v.place_order(ALICE, 0, Side::Buy, 102, 50, 1, 10).unwrap();
    v.place_order(BOB, 0, Side::Sell, 98, 80, 1, 1_000).unwrap();
    let outcome = v.match_orders(20).unwrap();
    assert_eq!(outcome, SweepOutcome::RejectedExpired { side: Side::Buy, id: buy_id });
    assert_eq!(v.buys.len(), 0);
    assert_eq!(v.sells.len(), 1);
    assert!(matches!(v.match_orders(20).unwrap(), SweepOutcome::NoCross));
    assert_eq!(v.accrued_fees, 0);
}

#[test]
fn test_place_order_requires_free_collateral() {
    let mut v = Venue::new(OWNER, true);
    v.deposit(ALICE, 5_000).unwrap();
    // margin = 102 * 50 = 5100 > 5000 free.
    let r = v.place_order(ALICE, 0, Side::Buy, 102, 50, 1, 1_000);
    assert_eq!(r, Err(ContractError::InsufficientCollateral));
    assert_eq!(v.buys.len(), 0);
    assert_eq!(get_record(&v.traders, ALICE).locked_margin, 0);
    // With leverage 10 the margin is 510 and the order is admitted.
    let (id, event) = v.place_order(ALICE, 0, Side::Buy, 102, 50, 10, 1_000).unwrap();
    assert_eq!(id, 1);
    assert_eq!(event.trader, ALICE);
    assert_eq!(get_record(&v.traders, ALICE).locked_margin, 510);
}

#[test]
fn test_withdraw_respects_locked_margin() {
    let mut v = Venue::new(OWNER, true);
    v.deposit(ALICE, 10_000).unwrap();
    v.place_order(ALICE, 0, Side::Buy, 100, 60, 1, 1_000).unwrap();
    // 6000 locked: withdrawing 5000 would dip into it.
    assert_eq!(v.withdraw(ALICE, 5_000), Err(ContractError::InsufficientCollateral));
    let w = v.withdraw(ALICE, 4_000).unwrap();
    assert_eq!(w.amount, 4_000);
    assert_eq!(get_record(&v.traders, ALICE).collateral, 6_000);
}

#[test]
fn test_lock_and_release_margin() {
    let mut v = Venue::new(OWNER, true);
    v.deposit(ALICE, 1_000).unwrap();
    assert_eq!(v.lock_margin(ALICE, 2_000), Err(ContractError::InsufficientCollateral));
    v.lock_margin(ALICE, 600).unwrap();
    assert_eq!(get_record(&v.traders, ALICE).locked_margin, 600);
    assert_eq!(v.lock_margin(ALICE, 500), Err(ContractError::InsufficientCollateral));
    v.release_margin(ALICE, 100);
    assert_eq!(get_record(&v.traders, ALICE).locked_margin, 500);
    // Releasing more than is locked clamps at zero; collateral never moves.
    v.release_margin(ALICE, 10_000);
    assert_eq!(get_record(&v.traders, ALICE).locked_margin, 0);
    assert_eq!(get_record(&v.traders, ALICE).collateral, 1_000);
}

#[test]
fn test_paused_venue_rejects_mutations() {
    let mut v = funded_venue();
    assert_eq!(v.pause(ALICE), Err(ContractError::NotOwner));
    v.pause(OWNER).unwrap();
    assert_eq!(v.deposit(ALICE, 1), Err(ContractError::Paused));
    assert_eq!(v.withdraw(ALICE, 1), Err(ContractError::Paused));
    assert_eq!(
        v.place_order(ALICE, 0, Side::Buy, 100, 1, 1, 1_000),
        Err(ContractError::Paused)
    );
    assert_eq!(v.match_orders(0), Err(ContractError::Paused));
    v.unpause(OWNER).unwrap();
    assert!(v.deposit(ALICE, 1).is_ok());
}

#[test]
fn test_nonce_replay_rejected_without_mutation() {
    // A submitted order's nonce must equal the stored nonce exactly; a
    // stale nonce is rejected and nothing changes.
    let mut v = funded_venue();
    let before = get_record(&v.traders, ALICE);
    let r = v.submit_signed_order(ALICE, 3, 0, Side::Buy, 100, 10, 1, 1_000);
    assert_eq!(r, Err(SubmitError::BadNonce { expected: 0 }));
    assert_eq!(get_record(&v.traders, ALICE), before);
    assert_eq!(v.buys.len(), 0);
    assert_eq!(v.next_order_id, 0);

    // The correct nonce is accepted and consumed.
    let (id, _) = v.submit_signed_order(ALICE, 0, 0, Side::Buy, 100, 10, 1, 1_000).unwrap();
    assert_eq!(id, 1);
    assert_eq!(v.current_nonce(ALICE), 1);
    assert_eq!(v.buys.len(), 1);

    // Replaying the consumed nonce is rejected without touching accounts.
    let after = get_record(&v.traders, ALICE);
    let replay = v.submit_signed_order(ALICE, 0, 0, Side::Buy, 100, 10, 1, 1_000);
    assert_eq!(replay, Err(SubmitError::BadNonce { expected: 1 }));
    assert_eq!(get_record(&v.traders, ALICE), after);
    assert_eq!(v.buys.len(), 1);
}

#[test]
fn test_liquidation_clears_position_and_margin() {
    // An under-margined trader ends the sweep flat: qty == 0, locked
    // margin == 0, and exactly one liquidation event fires.
    let mut v = Venue::new(OWNER, true);
    v.deposit(ALICE, 1_000).unwrap();
    v.place_order(ALICE, 0, Side::Buy, 90, 10, 1, 1_000).unwrap();
    // locked 900, equity 100, health 1111 bps < 5000.
    let outcome = v.try_liquidate(ALICE, 100);
    match outcome {
        LiquidationOutcome::Liquidated(e) => {
            assert_eq!(e.trader, ALICE);
            assert_eq!(e.mark_price, 100);
        },
        other => panic!("expected liquidation, got {:?}", other),
    }
    let rec = get_record(&v.traders, ALICE);
    assert_eq!(rec.pos_qty, 0);
    assert_eq!(rec.locked_margin, 0);
    assert_eq!(rec.collateral, 1_000);
    // A second attempt finds nothing to liquidate: no second event.
    assert_eq!(v.try_liquidate(ALICE, 100), LiquidationOutcome::Healthy);
}

#[test]
fn test_batch_liquidation_sweep() {
    // After a cross, the mark collapses: the long is liquidated, the short
    // has gained and stays. Listing a trader twice cannot fire twice.
    let mut v = Venue::new(OWNER, true);
    v.deposit(ALICE, 5_200).unwrap();
    v.deposit(BOB, 10_000).unwrap();
    v.place_order(ALICE, 0, Side::Buy, 102, 50, 1, 1_000).unwrap();
    v.place_order(BOB, 0, Side::Sell, 98, 80, 1, 1_000).unwrap();
    assert!(matches!(v.match_orders(0).unwrap(), SweepOutcome::Trade { .. }));
    let events = v.batch_liquidate(vec![ALICE, BOB, ALICE], 20);
    assert_eq!(events.len(), 1);
    assert_eq!(events[0].trader, ALICE);
    assert_eq!(events[0].mark_price, 20);
    let alice = get_record(&v.traders, ALICE);
    assert_eq!(alice.pos_qty, 0);
    assert_eq!(alice.locked_margin, 0);
    // collateral 5199 + pnl (20 - 100) * 50 = 5199 - 4000 = 1199.
    assert_eq!(alice.collateral, 1_199);
    let bob = get_record(&v.traders, BOB);
    assert_eq!(bob.pos_qty, -50);
    assert!(bob.locked_margin > 0);
}

#[test]
fn test_liquidation_clamps_collateral_at_zero() {
    // Under the clamping policy a wipe-out ends at zero, not negative.
    let mut v = Venue::new(OWNER, true);
    v.deposit(ALICE, 5_200).unwrap();
    v.deposit(BOB, 10_000).unwrap();
    v.place_order(ALICE, 0, Side::Buy, 102, 50, 1, 1_000).unwrap();
    v.place_order(BOB, 0, Side::Sell, 98, 80, 1, 1_000).unwrap();
    v.match_orders(0).unwrap();
    // pnl at mark 1: (1 - 100) * 50 = -4950 < collateral 5199? No:
    // 5199 - 4950 = 249, still positive; push the mark "negative".
    let events = v.batch_liquidate(vec![ALICE], -10);
    assert_eq!(events.len(), 1);
    // 5199 + (-110 * 50) = -301, clamped to 0.
    assert_eq!(get_record(&v.traders, ALICE).collateral, 0);
}

#[test]
fn test_settle_expired_releases_margin() {
    let mut v = Venue::new(OWNER, true);
    v.deposit(ALICE, 20_000).unwrap();
    v.deposit(BOB, 20_000).unwrap();
    v.place_order(ALICE, 0, Side::Buy, 100, 100, 1, 1_000).unwrap();
    v.place_order(BOB, 0, Side::Sell, 100, 100, 1, 1_000).unwrap();
    v.match_orders(0).unwrap();
    // No position: nothing to settle.
    assert_eq!(v.settle_expired(OWNER, 110), SettleOutcome::NoPosition);
    // Long 100 @ 100 settled at 110: +1000.
    assert_eq!(v.settle_expired(ALICE, 110), SettleOutcome::Settled);
    let alice = get_record(&v.traders, ALICE);
    assert_eq!(alice.pos_qty, 0);
    assert_eq!(alice.locked_margin, 0);
    assert_eq!(alice.collateral, 20_000 - 2 + 1_000);
}

#[test]
fn test_fee_configuration_and_withdrawal() {
    let mut v = funded_venue();
    assert_eq!(v.set_fees(ALICE, 10, 20), Err(ContractError::NotOwner));
    v.set_fees(OWNER, 10, 20).unwrap();
    v.place_order(ALICE, 0, Side::Buy, 100, 100, 1, 1_000).unwrap();
    v.place_order(BOB, 0, Side::Sell, 100, 100, 1, 1_000).unwrap();
    v.match_orders(0).unwrap();
    // notional 10000: maker 10 bps -> 10, taker 20 bps -> 20.
    assert_eq!(v.accrued_fees, 30);
    assert_eq!(v.withdraw_fees(BOB, BOB, 5), Err(ContractError::NotOwner));
    // Withdrawal is clamped at what has accrued.
    let paid = v.withdraw_fees(OWNER, OWNER, 100).unwrap();
    assert_eq!(paid.amount, 30);
    assert_eq!(v.accrued_fees, 0);
}

#[test]
fn test_oracle_update_is_privileged_and_monotonic() {
    let mut v = Venue::new(OWNER, true);
    assert_eq!(v.update_oracle_price(ALICE, 123, 5), Err(ContractError::NotOwner));
    v.update_oracle_price(OWNER, 123, 5).unwrap();
    assert_eq!(v.oracle.price, 123);
    assert_eq!(v.oracle.ts, 5);
    v.update_oracle_price(OWNER, 120, 9).unwrap();
    assert!(v.oracle.ts >= 5);
}

#[test]
fn test_entry_price_weighted_average_on_increase() {
    // Two increasing fills: 10 @ 100 then 10 @ 200 average to 150.
    let mut v = funded_venue();
    v.place_order(ALICE, 0, Side::Buy, 100, 10, 1, 1_000).unwrap();
    v.place_order(BOB, 0, Side::Sell, 100, 10, 1, 1_000).unwrap();
    v.match_orders(0).unwrap();
    v.place_order(ALICE, 0, Side::Buy, 200, 10, 1, 1_000).unwrap();
    v.place_order(BOB, 0, Side::Sell, 200, 10, 1, 1_000).unwrap();
    v.match_orders(0).unwrap();
    let alice = get_record(&v.traders, ALICE);
    assert_eq!(alice.pos_qty, 20);
    assert_eq!(alice.pos_entry, 150);
    // The short side averages the same way.
    let bob = get_record(&v.traders, BOB);
    assert_eq!(bob.pos_qty, -20);
    assert_eq!(bob.pos_entry, 150);
}

#[test]
fn test_entry_price_unchanged_on_reduce_and_reset_on_flip() {
    let mut v = funded_venue();
    // Alice long 20 @ 150.
    v.place_order(ALICE, 0, Side::Buy, 150, 20, 1, 1_000).unwrap();
    v.place_order(BOB, 0, Side::Sell, 150, 20, 1, 1_000).unwrap();
    v.match_orders(0).unwrap();
    // Reducing fill: Alice sells 5 at 300 — entry unchanged.
    v.place_order(BOB, 0, Side::Buy, 300, 5, 1, 1_000).unwrap();
    v.place_order(ALICE, 0, Side::Sell, 300, 5, 1, 1_000).unwrap();
    v.match_orders(0).unwrap();
    let alice = get_record(&v.traders, ALICE);
    assert_eq!(alice.pos_qty, 15);
    assert_eq!(alice.pos_entry, 150);
    // Flip through zero: Alice sells 40 at 200 — entry resets to the
    // trade price.
    v.place_order(BOB, 0, Side::Buy, 200, 40, 1, 1_000).unwrap();
    v.place_order(ALICE, 0, Side::Sell, 200, 40, 1, 1_000).unwrap();
    v.match_orders(0).unwrap();
    let alice = get_record(&v.traders, ALICE);
    assert_eq!(alice.pos_qty, -25);
    assert_eq!(alice.pos_entry, 200);
    // Close flat: entry resets to zero.
    v.place_order(ALICE, 0, Side::Buy, 200, 25, 1, 1_000).unwrap();
    v.place_order(BOB, 0, Side::Sell, 200, 25, 1, 1_000).unwrap();
    v.match_orders(0).unwrap();
    let alice = get_record(&v.traders, ALICE);
    assert_eq!(alice.pos_qty, 0);
    assert_eq!(alice.pos_entry, 0);
}

#[test]
fn test_solvency_holds_across_a_session() {
    // collateral >= locked_margin for every account after each step of a
    // deposit / order / match / liquidate sequence.
    let mut v = Venue::new(OWNER, true);
    let check = |v: &Venue| {
        for rec in v.traders.iter() {
            assert!(
                rec.collateral >= rec.locked_margin,
                "trader {} insolvent: {} < {}",
                rec.trader,
                rec.collateral,
                rec.locked_margin
            );
        }
    };
    v.deposit(ALICE, 50_000).unwrap();
    v.deposit(BOB, 50_000).unwrap();
    check(&v);
    v.place_order(ALICE, 0, Side::Buy, 102, 50, 1, 1_000).unwrap();
    v.place_order(BOB, 0, Side::Sell, 98, 80, 1, 1_000).unwrap();
    check(&v);
    v.match_orders(0).unwrap();
    check(&v);
    v.withdraw(ALICE, 10_000).unwrap();
    check(&v);
    v.batch_liquidate(vec![ALICE, BOB], 20);
    check(&v);
}
