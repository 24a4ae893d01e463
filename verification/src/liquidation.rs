use vstd::prelude::*;

verus! {

use crate::records::{get_record, lemma_record_trader, put_record, record_of, TraderRecord};
use crate::risk::{div_trunc, lemma_div_trunc_bounds, spec_pnl};
use crate::types::LiquidationEvent;
use crate::venue::Venue;

/// What a liquidation attempt did to one trader.
#[derive(Clone, Copy, Debug, PartialEq, Eq, Structural)]
pub enum LiquidationOutcome {
    /// The trader's margin health is at or above the threshold (or no
    /// margin is locked at all); nothing was touched.
    Healthy,
    /// The position was force-closed: profit and loss applied to
    /// collateral, quantity zeroed and all locked margin released.
    Liquidated(LiquidationEvent),
    /// The health arithmetic would overflow the fixed-width ledger;
    /// nothing was changed.
    OutOfRange,
}

/// What a settlement attempt did to one trader.
#[derive(Clone, Copy, Debug, PartialEq, Eq, Structural)]
pub enum SettleOutcome {
    /// The trader holds no position; nothing to settle.
    NoPosition,
    /// The position was settled at the mark price and the margin
    /// released.
    Settled,
    /// The settlement arithmetic would overflow; nothing was changed.
    OutOfRange,
}

/// Whether the settlement arithmetic for `rec` at `mark` stays inside
/// `i128`: the price difference, the profit and the adjusted collateral.
pub open spec fn settle_fits(rec: TraderRecord, mark: i128) -> bool {
    &&& i128::MIN <= mark - rec.pos_entry <= i128::MAX
    &&& i128::MIN <= spec_pnl(rec.pos_entry as int, rec.pos_qty as int, mark as int) <= i128::MAX
    &&& i128::MIN <= rec.collateral + spec_pnl(
        rec.pos_entry as int,
        rec.pos_qty as int,
        mark as int,
    ) <= i128::MAX
}

/// The trader's equity at `mark`: collateral plus unrealized profit minus
/// locked margin.
pub open spec fn rec_equity(rec: TraderRecord, mark: i128) -> int {
    rec.collateral + spec_pnl(rec.pos_entry as int, rec.pos_qty as int, mark as int)
        - rec.locked_margin
}

/// Whether the whole health computation for `rec` at `mark` stays inside
/// `i128`.
pub open spec fn health_fits(rec: TraderRecord, mark: i128) -> bool {
    &&& settle_fits(rec, mark)
    &&& i128::MIN <= rec_equity(rec, mark) <= i128::MAX
    &&& (rec_equity(rec, mark) > 0 ==> rec_equity(rec, mark) * 10_000 <= i128::MAX)
}

/// Margin health of a stored record in basis points, clamped at zero when
/// equity is exhausted. Meaningful only when margin is locked.
pub open spec fn rec_health_bps(rec: TraderRecord, mark: i128) -> int
    recommends
        rec.locked_margin != 0,
{
    if rec_equity(rec, mark) <= 0 {
        0
    } else {
        div_trunc(rec_equity(rec, mark) * 10_000, rec.locked_margin as int)
    }
}

/// The liquidation trigger: margin is locked and health is below the
/// threshold.
pub open spec fn triggers(rec: TraderRecord, mark: i128, threshold: i128) -> bool {
    &&& rec.locked_margin > 0
    &&& health_fits(rec, mark)
    &&& rec_health_bps(rec, mark) < threshold
}

/// A force-closed record: profit and loss folded into collateral (clamped
/// at zero under the clamping policy), position flattened and entry
/// reset, all locked margin released.
pub open spec fn spec_force_close(rec: TraderRecord, mark: i128, clamp: bool) -> TraderRecord {
    let settled = rec.collateral + spec_pnl(rec.pos_entry as int, rec.pos_qty as int, mark as int);
    let kept = if clamp && settled < 0 {
        0
    } else {
        settled
    };
    TraderRecord {
        collateral: kept as i128,
        locked_margin: 0,
        pos_qty: 0,
        pos_entry: 0,
        ..rec
    }
}

/// The record a liquidation attempt leaves behind: force-closed when the
/// trigger holds and the arithmetic fits, untouched otherwise.
pub open spec fn spec_try_liquidate_rec(
    rec: TraderRecord,
    mark: i128,
    threshold: i128,
    clamp: bool,
) -> TraderRecord {
    if triggers(rec, mark, threshold) {
        spec_force_close(rec, mark, clamp)
    } else {
        rec
    }
}

/// The outcome a liquidation attempt reports for a stored record.
pub open spec fn spec_liquidation_outcome(
    rec: TraderRecord,
    mark: i128,
    threshold: i128,
) -> LiquidationOutcome {
    if rec.locked_margin <= 0 {
        LiquidationOutcome::Healthy
    } else if !health_fits(rec, mark) {
        LiquidationOutcome::OutOfRange
    } else if rec_health_bps(rec, mark) < threshold {
        LiquidationOutcome::Liquidated(LiquidationEvent { trader: rec.trader, mark_price: mark })
    } else {
        LiquidationOutcome::Healthy
    }
}

/// Law: a liquidation attempt never leaves a trader still triggering —
/// a force-close releases all margin, and an untouched trader did not
/// trigger to begin with. A sweep therefore emits at most one
/// liquidation event per trader, however often the trader is listed.
pub proof fn lemma_no_retrigger(rec: TraderRecord, mark: i128, threshold: i128, clamp: bool)
    ensures
        !triggers(spec_try_liquidate_rec(rec, mark, threshold, clamp), mark, threshold),
{
    if triggers(rec, mark, threshold) {
        assert(spec_force_close(rec, mark, clamp).locked_margin == 0);
    }
}

impl Venue {
    /// Settles an open position immediately at `mark`: profit and loss are
    /// folded into collateral (clamped at zero under the clamping policy),
    /// the position is flattened and all locked margin released. A trader
    /// with no position is left untouched.
    pub fn settle_expired(&mut self, trader: u64, mark: i128) -> (r: SettleOutcome)
        requires
            old(self).wf(),
        ensures
            final(self).wf(),
            Venue::only_trader_changed(*old(self), *final(self), trader),
            record_of(old(self).traders@, trader).pos_qty == 0 ==> r == SettleOutcome::NoPosition
                && *final(self) == *old(self),
            record_of(old(self).traders@, trader).pos_qty != 0 && !settle_fits(
                record_of(old(self).traders@, trader),
                mark,
            ) ==> r == SettleOutcome::OutOfRange && *final(self) == *old(self),
            record_of(old(self).traders@, trader).pos_qty != 0 && settle_fits(
                record_of(old(self).traders@, trader),
                mark,
            ) ==> r == SettleOutcome::Settled && record_of(final(self).traders@, trader)
                == spec_force_close(
                record_of(old(self).traders@, trader),
                mark,
                old(self).clamp_negative_collateral,
            ),
            old(self).accounts_solvent() && old(self).clamp_negative_collateral
                ==> final(self).accounts_solvent(),
    {
        let rec = get_record(&self.traders, trader);
        if rec.pos_qty == 0 {
            return SettleOutcome::NoPosition;
        }
        let diff = match mark.checked_sub(rec.pos_entry) {
            Some(d) => d,
            None => {
                return SettleOutcome::OutOfRange;
            },
        };
        let pnl = match diff.checked_mul(rec.pos_qty) {
            Some(p) => p,
            None => {
                return SettleOutcome::OutOfRange;
            },
        };
        let settled = match rec.collateral.checked_add(pnl) {
            Some(c) => c,
            None => {
                return SettleOutcome::OutOfRange;
            },
        };
        let kept = if self.clamp_negative_collateral && settled < 0 {
            0
        } else {
            settled
        };
        proof {
            lemma_record_trader(old(self).traders@, trader);
        }
        let updated = TraderRecord {
            collateral: kept,
            locked_margin: 0,
            pos_qty: 0,
            pos_entry: 0,
            ..rec
        };
        put_record(&mut self.traders, updated);
        SettleOutcome::Settled
    }

    /// Force-closes `trader`'s position when its margin health at `mark`
    /// is below the liquidation threshold. Liquidation is all-or-nothing:
    /// the position is either fully closed — quantity zeroed, all locked
    /// margin released, profit and loss folded into collateral — or left
    /// untouched, and exactly one liquidation event is reported when it
    /// fires.
    pub fn try_liquidate(&mut self, trader: u64, mark: i128) -> (r: LiquidationOutcome)
        requires
            old(self).wf(),
        ensures
            final(self).wf(),
            Venue::only_trader_changed(*old(self), *final(self), trader),
            r == spec_liquidation_outcome(
                record_of(old(self).traders@, trader),
                mark,
                old(self).liquidation_threshold_bps,
            ),
            record_of(final(self).traders@, trader) == spec_try_liquidate_rec(
                record_of(old(self).traders@, trader),
                mark,
                old(self).liquidation_threshold_bps,
                old(self).clamp_negative_collateral,
            ),
            !(r is Liquidated) ==> *final(self) == *old(self),
            r is Liquidated ==> record_of(final(self).traders@, trader).pos_qty == 0 && record_of(
                final(self).traders@,
                trader,
            ).locked_margin == 0,
            old(self).accounts_solvent() && old(self).clamp_negative_collateral
                ==> final(self).accounts_solvent(),
    {
        let rec = get_record(&self.traders, trader);
        proof {
            lemma_record_trader(old(self).traders@, trader);
            assert(record_of(old(self).traders@, trader).locked_margin >= 0);
        }
        if rec.locked_margin == 0 {
            return LiquidationOutcome::Healthy;
        }
        let diff = match mark.checked_sub(rec.pos_entry) {
            Some(d) => d,
            None => {
                return LiquidationOutcome::OutOfRange;
            },
        };
        let pnl = match diff.checked_mul(rec.pos_qty) {
            Some(p) => p,
            None => {
                return LiquidationOutcome::OutOfRange;
            },
        };
        let settled = match rec.collateral.checked_add(pnl) {
            Some(c) => c,
            None => {
                return LiquidationOutcome::OutOfRange;
            },
        };
        let equity = match settled.checked_sub(rec.locked_margin) {
            Some(e) => e,
            None => {
                return LiquidationOutcome::OutOfRange;
            },
        };
        let health_bps: i128;
        if equity <= 0 {
            health_bps = 0;
        } else {
            let scaled = match equity.checked_mul(10_000) {
                Some(s) => s,
                None => {
                    return LiquidationOutcome::OutOfRange;
                },
            };
            health_bps = match scaled.checked_div(rec.locked_margin) {
                Some(h) => h,
                None => {
                    proof {
                        lemma_div_trunc_bounds(scaled as int, rec.locked_margin as int);
                        assert(false);
                    }
                    return LiquidationOutcome::OutOfRange;
                },
            };
        }
        if health_bps < self.liquidation_threshold_bps {
            let kept = if self.clamp_negative_collateral && settled < 0 {
                0
            } else {
                settled
            };
            let updated = TraderRecord {
                collateral: kept,
                locked_margin: 0,
                pos_qty: 0,
                pos_entry: 0,
                ..rec
            };
            put_record(&mut self.traders, updated);
            LiquidationOutcome::Liquidated(LiquidationEvent { trader, mark_price: mark })
        } else {
            LiquidationOutcome::Healthy
        }
    }

    /// One liquidation sweep: every listed trader is evaluated against the
    /// single mark-price snapshot taken at sweep start, and each trader
    /// whose health triggers ends the sweep force-closed, with exactly one
    /// liquidation event — listing a trader twice cannot fire twice,
    /// since a force-close releases the margin the trigger needs.
    pub fn batch_liquidate(&mut self, traders: Vec<u64>, mark: i128) -> (events: Vec<
        LiquidationEvent,
    >)
        requires
            old(self).wf(),
        ensures
            final(self).wf(),
            Venue::same_except_traders(*old(self), *final(self)),
            forall|u: u64|
                !traders@.contains(u) ==> #[trigger] record_of(final(self).traders@, u)
                    == record_of(old(self).traders@, u),
            forall|u: u64|
                traders@.contains(u) ==> #[trigger] record_of(final(self).traders@, u)
                    == spec_try_liquidate_rec(
                    record_of(old(self).traders@, u),
                    mark,
                    old(self).liquidation_threshold_bps,
                    old(self).clamp_negative_collateral,
                ),
            forall|k: int|
                0 <= k < events@.len() ==> (#[trigger] events@[k]).mark_price == mark
                    && traders@.contains(events@[k].trader) && triggers(
                    record_of(old(self).traders@, events@[k].trader),
                    mark,
                    old(self).liquidation_threshold_bps,
                ),
            forall|u: u64|
                #![trigger traders@.contains(u)]
                traders@.contains(u) && triggers(
                    record_of(old(self).traders@, u),
                    mark,
                    old(self).liquidation_threshold_bps,
                ) ==> exists|k: int| 0 <= k < events@.len() && (#[trigger] events@[k]).trader == u,
            forall|k1: int, k2: int|
                0 <= k1 < k2 < events@.len() ==> (#[trigger] events@[k1]).trader != (
                #[trigger] events@[k2]).trader,
            old(self).accounts_solvent() && old(self).clamp_negative_collateral
                ==> final(self).accounts_solvent(),
    {
        let ghost threshold = old(self).liquidation_threshold_bps;
        let ghost clamp = old(self).clamp_negative_collateral;
        let mut events: Vec<LiquidationEvent> = Vec::new();
        let mut i: usize = 0;
        while i < traders.len()
            invariant
                i <= traders@.len(),
                self.wf(),
                threshold == old(self).liquidation_threshold_bps,
                clamp == old(self).clamp_negative_collateral,
                Venue::same_except_traders(*old(self), *self),
                forall|u: u64|
                    !seen_in_prefix(traders@, i as int, u) ==> #[trigger] record_of(
                        self.traders@,
                        u,
                    ) == record_of(old(self).traders@, u),
                forall|u: u64|
                    seen_in_prefix(traders@, i as int, u) ==> #[trigger] record_of(
                        self.traders@,
                        u,
                    ) == spec_try_liquidate_rec(
                        record_of(old(self).traders@, u),
                        mark,
                        threshold,
                        clamp,
                    ),
                forall|k: int|
                    0 <= k < events@.len() ==> (#[trigger] events@[k]).mark_price == mark
                        && seen_in_prefix(traders@, i as int, events@[k].trader) && triggers(
                        record_of(old(self).traders@, events@[k].trader),
                        mark,
                        threshold,
                    ),
                forall|u: u64|
                    #![trigger seen_in_prefix(traders@, i as int, u)]
                    seen_in_prefix(traders@, i as int, u) && triggers(
                        record_of(old(self).traders@, u),
                        mark,
                        threshold,
                    ) ==> exists|k: int|
                        0 <= k < events@.len() && (#[trigger] events@[k]).trader == u,
                forall|k1: int, k2: int|
                    0 <= k1 < k2 < events@.len() ==> (#[trigger] events@[k1]).trader != (
                    #[trigger] events@[k2]).trader,
                old(self).accounts_solvent() && clamp ==> self.accounts_solvent(),
            decreases traders@.len() - i,
        {
            let t = traders[i];
            let ghost pre_rec = record_of(self.traders@, t);
            let ghost old_rec = record_of(old(self).traders@, t);
            proof {
                if seen_in_prefix(traders@, i as int, t) {
                    lemma_no_retrigger(old_rec, mark, threshold, clamp);
                }
            }
            let ghost pre_events = events@;
            let outcome = self.try_liquidate(t, mark);
            match outcome {
                LiquidationOutcome::Liquidated(e) => {
                    events.push(e);
                },
                _ => {},
            }
            proof {
                lemma_record_trader(old(self).traders@, t);
                assert forall|u: u64|
                    #![trigger seen_in_prefix(traders@, i + 1, u)]
                    seen_in_prefix(traders@, i + 1, u) && triggers(
                        record_of(old(self).traders@, u),
                        mark,
                        threshold,
                    ) implies exists|k: int|
                    0 <= k < events@.len() && (#[trigger] events@[k]).trader == u by {
                    if seen_in_prefix(traders@, i as int, u) {
                        let k0 = choose|k: int|
                            0 <= k < pre_events.len() && (#[trigger] pre_events[k]).trader == u;
                        assert(0 <= k0 < events@.len() && events@[k0].trader == u);
                    } else {
                        let k = choose|k: int| 0 <= k < i + 1 && #[trigger] traders@[k] == u;
                        assert(k == i as int);
                        assert(u == t);
                        assert(!seen_in_prefix(traders@, i as int, t));
                        assert(pre_rec == old_rec);
                        assert(outcome == spec_liquidation_outcome(old_rec, mark, threshold));
                        assert(outcome is Liquidated);
                        let klast = events@.len() - 1;
                        assert(events@[klast].trader == u);
                    }
                }
                assert forall|u: u64| seen_in_prefix(traders@, i + 1, u) implies #[trigger]
                record_of(self.traders@, u) == spec_try_liquidate_rec(
                    record_of(old(self).traders@, u),
                    mark,
                    threshold,
                    clamp,
                ) by {
                    if u == t {
                    } else {
                        let k = choose|k: int| 0 <= k < i + 1 && traders@[k] == u;
                        assert(k < i);
                        assert(seen_in_prefix(traders@, i as int, u));
                    }
                }
                assert forall|u: u64| !seen_in_prefix(traders@, i + 1, u) implies #[trigger]
                record_of(self.traders@, u) == record_of(old(self).traders@, u) by {
                    assert(traders@[i as int] != u);
                    assert(!seen_in_prefix(traders@, i as int, u));
                }
            }
            i += 1;
        }
        proof {
            assert forall|u: u64| traders@.contains(u) implies seen_in_prefix(
                traders@,
                traders@.len() as int,
                u,
            ) by {
                let k = choose|k: int| 0 <= k < traders@.len() && traders@[k] == u;
                assert(0 <= k < traders@.len() && traders@[k] == u);
            }
        }
        events
    }
}

/// Trader `u` occurs among the first `n` entries of the sweep list.
pub open spec fn seen_in_prefix(s: Seq<u64>, n: int, u: u64) -> bool {
    exists|k: int| 0 <= k < n && #[trigger] s[k] == u
}

} // verus!
