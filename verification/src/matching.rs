use vstd::prelude::*;

verus! {

use crate::records::{
    get_record, lemma_record_trader, put_record, record_of, TraderRecord,
};
use crate::risk::{
    abs_i, div_trunc, lemma_div_trunc_bounds, lemma_mul_nonneg, lemma_required_margin_nonneg,
    required_margin, spec_required_margin,
};
use crate::types::{
    ContractError, FeeAccrued, OrderData, OrderPlaced, Side, SubmitError, TradeEvent,
    TradeExecution,
};
use crate::venue::{OrderEntry, Venue, PRICE_BOUND};

/// What one matching sweep did, or why it did nothing.
#[derive(Clone, Copy, Debug, PartialEq, Eq, Structural)]
pub enum SweepOutcome {
    /// One side of the book has no resting order.
    NoCross,
    /// The head of one side was past its expiry; it was discarded without
    /// trading, and the other head still rests.
    RejectedExpired { side: Side, id: u64 },
    /// The two head orders crossed and were both removed in full.
    Trade {
        event: TradeEvent,
        buy_id: u64,
        sell_id: u64,
        execution: TradeExecution,
        fees: FeeAccrued,
    },
    /// The cross would overflow the fixed-width ledger arithmetic; nothing
    /// was changed. Unreachable for realistic magnitudes, but signalled
    /// explicitly rather than left to a runtime failure.
    OutOfRange,
}

/// The fill quantity signed by side: buys add to the position, sells
/// subtract.
pub open spec fn signed_fill(side: Side, qty: int) -> int {
    if side == Side::Buy {
        qty
    } else {
        -qty
    }
}

/// The entry price after applying a fill of `qty` at `price` to a
/// position: the notional-weighted average on an increasing fill,
/// unchanged on a reducing fill, the trade price when the position flips
/// through zero, and zero when the position closes flat.
pub open spec fn fill_entry(rec: TraderRecord, side: Side, price: int, qty: int) -> int {
    let sq = signed_fill(side, qty);
    let nq = rec.pos_qty + sq;
    if nq == 0 {
        0
    } else if rec.pos_qty == 0 {
        price
    } else if (rec.pos_qty > 0) == (sq > 0) {
        div_trunc(rec.pos_entry * rec.pos_qty + price * sq, nq)
    } else if (nq > 0) == (rec.pos_qty > 0) {
        rec.pos_entry as int
    } else {
        price
    }
}

/// Whether the fill arithmetic stays inside `i128`.
pub open spec fn fill_fits(rec: TraderRecord, side: Side, price: int, qty: int) -> bool {
    let sq = signed_fill(side, qty);
    let nq = rec.pos_qty + sq;
    &&& i128::MIN <= nq <= i128::MAX
    &&& ((nq != 0 && rec.pos_qty != 0 && (rec.pos_qty > 0) == (sq > 0)) ==> {
        &&& i128::MIN <= rec.pos_entry * rec.pos_qty <= i128::MAX
        &&& i128::MIN <= price * sq <= i128::MAX
        &&& i128::MIN <= rec.pos_entry * rec.pos_qty + price * sq <= i128::MAX
        &&& i128::MIN <= div_trunc(rec.pos_entry * rec.pos_qty + price * sq, nq) <= i128::MAX
    })
}

/// The record after one fill: quantity netted, entry price re-averaged,
/// balances untouched.
pub open spec fn spec_fill(rec: TraderRecord, side: Side, price: int, qty: int) -> TraderRecord
    recommends
        fill_fits(rec, side, price, qty),
{
    TraderRecord {
        pos_qty: (rec.pos_qty + signed_fill(side, qty)) as i128,
        pos_entry: fill_entry(rec, side, price, qty) as i128,
        ..rec
    }
}

/// The record after charging a fee against collateral.
pub open spec fn spec_debit(rec: TraderRecord, fee: int) -> TraderRecord {
    TraderRecord { collateral: (rec.collateral - fee) as i128, ..rec }
}

/// Both book sides have a head order.
pub open spec fn heads_exist(v: Venue) -> bool {
    v.buys@.len() > 0 && v.sells@.len() > 0
}

/// The resting head of the buy side.
pub open spec fn buy_head(v: Venue) -> OrderEntry {
    v.buys@[0]
}

/// The resting head of the sell side.
pub open spec fn sell_head(v: Venue) -> OrderEntry {
    v.sells@[0]
}

/// Both heads exist and neither is past its expiry at `now`.
pub open spec fn heads_ready(v: Venue, now: u64) -> bool {
    &&& heads_exist(v)
    &&& now <= buy_head(v).order.expiry_ts
    &&& now <= sell_head(v).order.expiry_ts
}

/// Trade price of a cross: the arithmetic midpoint of the two head
/// prices, truncating toward zero.
pub open spec fn spec_trade_price(v: Venue) -> int {
    div_trunc(buy_head(v).order.price + sell_head(v).order.price, 2)
}

/// Trade quantity of a cross: the smaller of the two head quantities.
pub open spec fn spec_trade_qty(v: Venue) -> int {
    if buy_head(v).order.qty <= sell_head(v).order.qty {
        buy_head(v).order.qty as int
    } else {
        sell_head(v).order.qty as int
    }
}

/// Notional of a cross: trade price magnitude times trade quantity.
pub open spec fn spec_notional(v: Venue) -> int {
    abs_i(spec_trade_price(v)) * spec_trade_qty(v)
}

/// The order admitted earlier (the lower id) is the maker.
pub open spec fn maker_is_buy(v: Venue) -> bool {
    buy_head(v).id < sell_head(v).id
}

/// Maker fee of the cross, in collateral units.
pub open spec fn spec_maker_fee(v: Venue) -> int {
    div_trunc(spec_notional(v) * v.maker_fee_bps as int, 10_000)
}

/// Taker fee of the cross, in collateral units.
pub open spec fn spec_taker_fee(v: Venue) -> int {
    div_trunc(spec_notional(v) * v.taker_fee_bps as int, 10_000)
}

/// The fee the buyer pays on this cross.
pub open spec fn spec_buy_fee(v: Venue) -> int {
    if maker_is_buy(v) {
        spec_maker_fee(v)
    } else {
        spec_taker_fee(v)
    }
}

/// The fee the seller pays on this cross.
pub open spec fn spec_sell_fee(v: Venue) -> int {
    if maker_is_buy(v) {
        spec_taker_fee(v)
    } else {
        spec_maker_fee(v)
    }
}

/// The buyer's record after the fill and its fee.
pub open spec fn rec_after_buy_fill(v: Venue) -> TraderRecord {
    spec_debit(
        spec_fill(
            record_of(v.traders@, buy_head(v).order.trader),
            Side::Buy,
            spec_trade_price(v),
            spec_trade_qty(v),
        ),
        spec_buy_fee(v),
    )
}

/// The record the seller's fill starts from: when one trader rests on
/// both sides, the buy fill has already been applied.
pub open spec fn sell_base_rec(v: Venue) -> TraderRecord {
    if sell_head(v).order.trader == buy_head(v).order.trader {
        rec_after_buy_fill(v)
    } else {
        record_of(v.traders@, sell_head(v).order.trader)
    }
}

/// The seller's record after the fill and its fee.
pub open spec fn rec_after_sell_fill(v: Venue) -> TraderRecord {
    spec_debit(
        spec_fill(sell_base_rec(v), Side::Sell, spec_trade_price(v), spec_trade_qty(v)),
        spec_sell_fee(v),
    )
}

/// Whether the whole cross — fees, both fills, both debits and the fee
/// accrual — stays inside `i128`.
pub open spec fn trade_fits(v: Venue) -> bool {
    &&& spec_notional(v) <= i128::MAX
    &&& spec_notional(v) * v.maker_fee_bps as int <= i128::MAX
    &&& spec_notional(v) * v.taker_fee_bps as int <= i128::MAX
    &&& fill_fits(
        record_of(v.traders@, buy_head(v).order.trader),
        Side::Buy,
        spec_trade_price(v),
        spec_trade_qty(v),
    )
    &&& i128::MIN <= spec_fill(
        record_of(v.traders@, buy_head(v).order.trader),
        Side::Buy,
        spec_trade_price(v),
        spec_trade_qty(v),
    ).collateral - spec_buy_fee(v)
    &&& fill_fits(sell_base_rec(v), Side::Sell, spec_trade_price(v), spec_trade_qty(v))
    &&& i128::MIN <= spec_fill(
        sell_base_rec(v),
        Side::Sell,
        spec_trade_price(v),
        spec_trade_qty(v),
    ).collateral - spec_sell_fee(v)
    &&& v.accrued_fees + spec_maker_fee(v) + spec_taker_fee(v) <= i128::MAX
}

/// Each head trader's free collateral covers the fee its side of the
/// cross is charged (both fees, when one trader rests on both sides).
pub open spec fn fees_covered(v: Venue) -> bool {
    heads_exist(v) ==> ({
        let bt = buy_head(v).order.trader;
        let st = sell_head(v).order.trader;
        let brec = record_of(v.traders@, bt);
        let srec = record_of(v.traders@, st);
        if bt == st {
            brec.collateral - brec.locked_margin >= spec_buy_fee(v) + spec_sell_fee(v)
        } else {
            brec.collateral - brec.locked_margin >= spec_buy_fee(v) && srec.collateral
                - srec.locked_margin >= spec_sell_fee(v)
        }
    })
}

/// What a matching sweep decides, as a function of the pre-state alone:
/// repeated sweeps of the same state decide the same, so matching is
/// deterministic.
pub open spec fn spec_sweep(v: Venue, now: u64) -> Result<SweepOutcome, ContractError> {
    if v.paused {
        Err(ContractError::Paused)
    } else if !heads_exist(v) {
        Ok(SweepOutcome::NoCross)
    } else if now > buy_head(v).order.expiry_ts {
        Ok(SweepOutcome::RejectedExpired { side: Side::Buy, id: buy_head(v).id })
    } else if now > sell_head(v).order.expiry_ts {
        Ok(SweepOutcome::RejectedExpired { side: Side::Sell, id: sell_head(v).id })
    } else if !trade_fits(v) {
        Ok(SweepOutcome::OutOfRange)
    } else {
        Ok(
            SweepOutcome::Trade {
                event: TradeEvent {
                    buy: buy_head(v).order.trader,
                    sell: sell_head(v).order.trader,
                    price: spec_trade_price(v) as i128,
                    qty: spec_trade_qty(v) as i128,
                },
                buy_id: buy_head(v).id,
                sell_id: sell_head(v).id,
                execution: TradeExecution {
                    price: spec_trade_price(v) as i128,
                    qty: spec_trade_qty(v) as i128,
                    fee: (spec_maker_fee(v) + spec_taker_fee(v)) as i128,
                },
                fees: FeeAccrued {
                    maker_fee: spec_maker_fee(v) as i128,
                    taker_fee: spec_taker_fee(v) as i128,
                },
            },
        )
    }
}

/// One fill applied to a trader's record, or `None` when the arithmetic
/// would leave `i128`.
fn apply_fill_record(rec: TraderRecord, side: Side, price: i128, qty: i128) -> (r: Option<
    TraderRecord,
>)
    requires
        0 < qty,
    ensures
        r is Some <==> fill_fits(rec, side, price as int, qty as int),
        r matches Some(nr) ==> nr == spec_fill(rec, side, price as int, qty as int),
{
    let sq: i128 = match side {
        Side::Buy => qty,
        Side::Sell => -qty,
    };
    let nq = match rec.pos_qty.checked_add(sq) {
        Some(v) => v,
        None => {
            return None;
        },
    };
    let ne: i128;
    if nq == 0 {
        ne = 0;
    } else if rec.pos_qty == 0 {
        ne = price;
    } else if (rec.pos_qty > 0) == (sq > 0) {
        let e_scaled = match rec.pos_entry.checked_mul(rec.pos_qty) {
            Some(v) => v,
            None => {
                return None;
            },
        };
        let p_scaled = match price.checked_mul(sq) {
            Some(v) => v,
            None => {
                return None;
            },
        };
        let num = match e_scaled.checked_add(p_scaled) {
            Some(v) => v,
            None => {
                return None;
            },
        };
        ne = match num.checked_div(nq) {
            Some(v) => v,
            None => {
                return None;
            },
        };
    } else if (nq > 0) == (rec.pos_qty > 0) {
        ne = rec.pos_entry;
    } else {
        ne = price;
    }
    Some(TraderRecord { pos_qty: nq, pos_entry: ne, ..rec })
}

/// One fee charged against a record's collateral, or `None` when the
/// debit would leave `i128`.
fn debit_collateral(rec: TraderRecord, fee: i128) -> (r: Option<TraderRecord>)
    ensures
        r is Some <==> i128::MIN <= rec.collateral - fee <= i128::MAX,
        r matches Some(nr) ==> nr == spec_debit(rec, fee as int),
{
    match rec.collateral.checked_sub(fee) {
        Some(c) => Some(TraderRecord { collateral: c, ..rec }),
        None => None,
    }
}

/// The sweep decision with everything the commit step needs.
enum CrossEval {
    Blocked,
    NoHeads,
    ExpiredBuy,
    ExpiredSell,
    OutOfRange,
    Ready {
        buy_rec: TraderRecord,
        sell_rec: TraderRecord,
        maker_fee: i128,
        taker_fee: i128,
        price: i128,
        qty: i128,
    },
}

impl Venue {
    /// Evaluates the sweep decision without touching any state.
    fn evaluate_cross(&self, now: u64) -> (r: CrossEval)
        requires
            self.wf(),
        ensures
            r is Blocked <==> self.paused,
            !self.paused ==> (r is NoHeads <==> !heads_exist(*self)),
            !self.paused && heads_exist(*self) ==> (r is ExpiredBuy <==> now > buy_head(
                *self,
            ).order.expiry_ts),
            !self.paused && heads_exist(*self) && now <= buy_head(*self).order.expiry_ts ==> (
            r is ExpiredSell <==> now > sell_head(*self).order.expiry_ts),
            !self.paused && heads_ready(*self, now) ==> (r is OutOfRange <==> !trade_fits(*self)),
            !self.paused && heads_ready(*self, now) && trade_fits(*self) ==> r == (
            CrossEval::Ready {
                buy_rec: rec_after_buy_fill(*self),
                sell_rec: rec_after_sell_fill(*self),
                maker_fee: spec_maker_fee(*self) as i128,
                taker_fee: spec_taker_fee(*self) as i128,
                price: spec_trade_price(*self) as i128,
                qty: spec_trade_qty(*self) as i128,
            }),
    {
        if self.paused {
            return CrossEval::Blocked;
        }
        if self.buys.len() == 0 || self.sells.len() == 0 {
            return CrossEval::NoHeads;
        }
        let bh = self.buys[0];
        let sh = self.sells[0];
        if now > bh.order.expiry_ts {
            return CrossEval::ExpiredBuy;
        }
        if now > sh.order.expiry_ts {
            return CrossEval::ExpiredSell;
        }
        proof {
            assert(0 < bh.order.qty && -PRICE_BOUND <= bh.order.price <= PRICE_BOUND);
            assert(0 < sh.order.qty && -PRICE_BOUND <= sh.order.price <= PRICE_BOUND);
        }
        let sum: i128 = bh.order.price + sh.order.price;
        let price = match sum.checked_div(2) {
            Some(p) => p,
            None => {
                proof {
                    lemma_div_trunc_bounds(sum as int, 2);
                    assert(false);
                }
                return CrossEval::OutOfRange;
            },
        };
        let qty: i128 = if bh.order.qty <= sh.order.qty {
            bh.order.qty
        } else {
            sh.order.qty
        };
        proof {
            lemma_div_trunc_bounds(sum as int, 2);
        }
        let pa: i128 = if price >= 0 {
            price
        } else {
            -price
        };
        proof {
            lemma_mul_nonneg(pa as int, qty as int);
        }
        let notional = match pa.checked_mul(qty) {
            Some(n) => n,
            None => {
                return CrossEval::OutOfRange;
            },
        };
        proof {
            lemma_mul_nonneg(notional as int, self.maker_fee_bps as int);
            lemma_mul_nonneg(notional as int, self.taker_fee_bps as int);
        }
        let mf_scaled = match notional.checked_mul(self.maker_fee_bps as i128) {
            Some(v) => v,
            None => {
                return CrossEval::OutOfRange;
            },
        };
        let maker_fee = match mf_scaled.checked_div(10_000) {
            Some(v) => v,
            None => {
                proof {
                    lemma_div_trunc_bounds(mf_scaled as int, 10_000);
                    assert(false);
                }
                return CrossEval::OutOfRange;
            },
        };
        let tf_scaled = match notional.checked_mul(self.taker_fee_bps as i128) {
            Some(v) => v,
            None => {
                return CrossEval::OutOfRange;
            },
        };
        let taker_fee = match tf_scaled.checked_div(10_000) {
            Some(v) => v,
            None => {
                proof {
                    lemma_div_trunc_bounds(tf_scaled as int, 10_000);
                    assert(false);
                }
                return CrossEval::OutOfRange;
            },
        };
        let buy_fee = if bh.id < sh.id {
            maker_fee
        } else {
            taker_fee
        };
        let sell_fee = if bh.id < sh.id {
            taker_fee
        } else {
            maker_fee
        };
        let b0 = get_record(&self.traders, bh.order.trader);
        let b1 = match apply_fill_record(b0, Side::Buy, price, qty) {
            Some(v) => v,
            None => {
                return CrossEval::OutOfRange;
            },
        };
        proof {
            lemma_div_trunc_bounds(mf_scaled as int, 10_000);
            lemma_div_trunc_bounds(tf_scaled as int, 10_000);
        }
        let b2 = match debit_collateral(b1, buy_fee) {
            Some(v) => v,
            None => {
                return CrossEval::OutOfRange;
            },
        };
        let s_base = if sh.order.trader == bh.order.trader {
            b2
        } else {
            get_record(&self.traders, sh.order.trader)
        };
        let s1 = match apply_fill_record(s_base, Side::Sell, price, qty) {
            Some(v) => v,
            None => {
                return CrossEval::OutOfRange;
            },
        };
        let s2 = match debit_collateral(s1, sell_fee) {
            Some(v) => v,
            None => {
                return CrossEval::OutOfRange;
            },
        };
        let total = match maker_fee.checked_add(taker_fee) {
            Some(v) => v,
            None => {
                return CrossEval::OutOfRange;
            },
        };
        match self.accrued_fees.checked_add(total) {
            Some(_) => {},
            None => {
                return CrossEval::OutOfRange;
            },
        }
        CrossEval::Ready { buy_rec: b2, sell_rec: s2, maker_fee, taker_fee, price, qty }
    }

    /// The decision the next matching sweep would take, without taking it.
    /// The settlement layer propagates a `Trade` decision to the
    /// authoritative ledger first and commits with [`Venue::match_orders`]
    /// only once propagation succeeded; on failure both orders keep
    /// resting and the sweep is retried.
    pub fn peek_cross(&self, now: u64) -> (r: Result<SweepOutcome, ContractError>)
        requires
            self.wf(),
        ensures
            r == spec_sweep(*self, now),
    {
        match self.evaluate_cross(now) {
            CrossEval::Blocked => Err(ContractError::Paused),
            CrossEval::NoHeads => Ok(SweepOutcome::NoCross),
            CrossEval::ExpiredBuy => Ok(
                SweepOutcome::RejectedExpired { side: Side::Buy, id: self.buys[0].id },
            ),
            CrossEval::ExpiredSell => Ok(
                SweepOutcome::RejectedExpired { side: Side::Sell, id: self.sells[0].id },
            ),
            CrossEval::OutOfRange => Ok(SweepOutcome::OutOfRange),
            CrossEval::Ready { buy_rec: _, sell_rec: _, maker_fee, taker_fee, price, qty } => Ok(
                SweepOutcome::Trade {
                    event: TradeEvent {
                        buy: self.buys[0].order.trader,
                        sell: self.sells[0].order.trader,
                        price,
                        qty,
                    },
                    buy_id: self.buys[0].id,
                    sell_id: self.sells[0].id,
                    execution: TradeExecution { price, qty, fee: maker_fee + taker_fee },
                    fees: FeeAccrued { maker_fee, taker_fee },
                },
            ),
        }
    }

    /// One matching sweep over the heads of the two book sides. An expired
    /// head is discarded without a trade; otherwise any head pair crosses
    /// at the midpoint price for the smaller quantity, fees are charged to
    /// both sides and accrued to the venue, and — a deliberate,
    /// documented simplification — both head orders are removed in full
    /// even when their sizes differ, leaving no residual resting.
    ///
    /// The outcome is a function of the starting state alone
    /// ([`spec_sweep`]), and a `Trade` removes both heads, so repeating
    /// the sweep without new admissions can never re-match the same pair.
    pub fn match_orders(&mut self, now: u64) -> (r: Result<SweepOutcome, ContractError>)
        requires
            old(self).wf(),
        ensures
            final(self).wf(),
            r == spec_sweep(*old(self), now),
            old(self).paused ==> *final(self) == *old(self),
            !old(self).paused && !heads_exist(*old(self)) ==> *final(self) == *old(self),
            !old(self).paused && heads_exist(*old(self)) && now > buy_head(
                *old(self),
            ).order.expiry_ts ==> {
                &&& Venue::admin_unchanged(*old(self), *final(self))
                &&& final(self).buys@ == old(self).buys@.remove(0)
                &&& final(self).sells@ == old(self).sells@
                &&& final(self).traders@ == old(self).traders@
                &&& final(self).accrued_fees == old(self).accrued_fees
                &&& final(self).next_order_id == old(self).next_order_id
            },
            !old(self).paused && heads_exist(*old(self)) && now <= buy_head(
                *old(self),
            ).order.expiry_ts && now > sell_head(*old(self)).order.expiry_ts ==> {
                &&& Venue::admin_unchanged(*old(self), *final(self))
                &&& final(self).buys@ == old(self).buys@
                &&& final(self).sells@ == old(self).sells@.remove(0)
                &&& final(self).traders@ == old(self).traders@
                &&& final(self).accrued_fees == old(self).accrued_fees
                &&& final(self).next_order_id == old(self).next_order_id
            },
            !old(self).paused && heads_ready(*old(self), now) && !trade_fits(*old(self))
                ==> *final(self) == *old(self),
            !old(self).paused && heads_ready(*old(self), now) && trade_fits(*old(self)) ==> {
                &&& Venue::admin_unchanged(*old(self), *final(self))
                &&& final(self).buys@ == old(self).buys@.remove(0)
                &&& final(self).sells@ == old(self).sells@.remove(0)
                &&& final(self).next_order_id == old(self).next_order_id
                &&& final(self).accrued_fees == old(self).accrued_fees + spec_maker_fee(
                    *old(self),
                ) + spec_taker_fee(*old(self))
                &&& record_of(final(self).traders@, sell_head(*old(self)).order.trader)
                    == rec_after_sell_fill(*old(self))
                &&& (buy_head(*old(self)).order.trader != sell_head(*old(self)).order.trader
                    ==> record_of(final(self).traders@, buy_head(*old(self)).order.trader)
                    == rec_after_buy_fill(*old(self)))
                &&& forall|u: u64|
                    u != buy_head(*old(self)).order.trader && u != sell_head(
                        *old(self),
                    ).order.trader ==> #[trigger] record_of(final(self).traders@, u) == record_of(
                        old(self).traders@,
                        u,
                    )
            },
            old(self).accounts_solvent() && fees_covered(*old(self))
                ==> final(self).accounts_solvent(),
    {
        let ev = self.evaluate_cross(now);
        match ev {
            CrossEval::Blocked => Err(ContractError::Paused),
            CrossEval::NoHeads => Ok(SweepOutcome::NoCross),
            CrossEval::ExpiredBuy => {
                let e = self.buys.remove(0);
                proof {
                    assert forall|i: int|
                        0 <= i < self.buys@.len() implies 0 < (#[trigger] self.buys@[i]).order.qty
                        && -PRICE_BOUND <= self.buys@[i].order.price <= PRICE_BOUND by {
                        assert(self.buys@[i] == old(self).buys@[i + 1]);
                        assert(0 < (old(self).buys@[i + 1]).order.qty);
                    }
                }
                Ok(SweepOutcome::RejectedExpired { side: Side::Buy, id: e.id })
            },
            CrossEval::ExpiredSell => {
                let e = self.sells.remove(0);
                proof {
                    assert forall|i: int|
                        0 <= i < self.sells@.len() implies 0 < (#[trigger] self.sells@[i]).order.qty
                        && -PRICE_BOUND <= self.sells@[i].order.price <= PRICE_BOUND by {
                        assert(self.sells@[i] == old(self).sells@[i + 1]);
                        assert(0 < (old(self).sells@[i + 1]).order.qty);
                    }
                }
                Ok(SweepOutcome::RejectedExpired { side: Side::Sell, id: e.id })
            },
            CrossEval::OutOfRange => Ok(SweepOutcome::OutOfRange),
            CrossEval::Ready { buy_rec, sell_rec, maker_fee, taker_fee, price, qty } => {
                let b = self.buys.remove(0);
                let s = self.sells.remove(0);
                proof {
                    lemma_record_trader(old(self).traders@, b.order.trader);
                    lemma_record_trader(old(self).traders@, s.order.trader);
                    assert(buy_rec.trader == b.order.trader);
                    assert(sell_rec.trader == s.order.trader);
                }
                put_record(&mut self.traders, buy_rec);
                put_record(&mut self.traders, sell_rec);
                proof {
                    lemma_div_trunc_bounds(
                        spec_notional(*old(self)) * old(self).maker_fee_bps as int,
                        10_000,
                    );
                    lemma_div_trunc_bounds(
                        spec_notional(*old(self)) * old(self).taker_fee_bps as int,
                        10_000,
                    );
                }
                let total = maker_fee + taker_fee;
                self.accrued_fees = self.accrued_fees + total;
                proof {
                    assert forall|i: int|
                        0 <= i < self.buys@.len() implies 0 < (#[trigger] self.buys@[i]).order.qty
                        && -PRICE_BOUND <= self.buys@[i].order.price <= PRICE_BOUND by {
                        assert(self.buys@[i] == old(self).buys@[i + 1]);
                        assert(0 < (old(self).buys@[i + 1]).order.qty);
                    }
                    assert forall|i: int|
                        0 <= i < self.sells@.len() implies 0 < (#[trigger] self.sells@[i]).order.qty
                        && -PRICE_BOUND <= self.sells@[i].order.price <= PRICE_BOUND by {
                        assert(self.sells@[i] == old(self).sells@[i + 1]);
                        assert(0 < (old(self).sells@[i + 1]).order.qty);
                    }
                }
                Ok(
                    SweepOutcome::Trade {
                        event: TradeEvent { buy: b.order.trader, sell: s.order.trader, price, qty },
                        buy_id: b.id,
                        sell_id: s.id,
                        execution: TradeExecution { price, qty, fee: total },
                        fees: FeeAccrued { maker_fee, taker_fee },
                    },
                )
            },
        }
    }

    /// Admits an order: locks the required initial margin out of free
    /// collateral, assigns the next order id and appends the order to the
    /// arrival-ordered queue of its side. Rejected with
    /// `InsufficientCollateral` when free collateral cannot back the
    /// margin, and with `Paused` while paused; a rejected call changes
    /// nothing.
    pub fn place_order(
        &mut self,
        sender: u64,
        now: u64,
        side: Side,
        price: i128,
        qty: i128,
        leverage: u32,
        ttl_secs: u64,
    ) -> (r: Result<(u64, OrderPlaced), ContractError>)
        requires
            old(self).wf(),
            0 < qty,
            -PRICE_BOUND <= price <= PRICE_BOUND,
            abs_i(qty as int) * abs_i(price as int) <= i128::MAX,
            now + ttl_secs <= u64::MAX,
            old(self).next_order_id < u64::MAX,
        ensures
            final(self).wf(),
            old(self).paused ==> r == Err::<(u64, OrderPlaced), ContractError>(
                ContractError::Paused,
            ) && *final(self) == *old(self),
            !old(self).paused && record_of(old(self).traders@, sender).collateral - record_of(
                old(self).traders@,
                sender,
            ).locked_margin < spec_required_margin(qty as int, price as int, leverage) ==> r
                == Err::<(u64, OrderPlaced), ContractError>(ContractError::InsufficientCollateral)
                && *final(self) == *old(self),
            !old(self).paused && record_of(old(self).traders@, sender).collateral - record_of(
                old(self).traders@,
                sender,
            ).locked_margin >= spec_required_margin(qty as int, price as int, leverage) ==> {
                &&& r == Ok::<(u64, OrderPlaced), ContractError>(
                    (
                        (old(self).next_order_id + 1) as u64,
                        OrderPlaced { trader: sender, id: (old(self).next_order_id + 1) as u64 },
                    ),
                )
                &&& Venue::admin_unchanged(*old(self), *final(self))
                &&& final(self).next_order_id == old(self).next_order_id + 1
                &&& final(self).accrued_fees == old(self).accrued_fees
                &&& record_of(final(self).traders@, sender) == (TraderRecord {
                    locked_margin: (record_of(old(self).traders@, sender).locked_margin
                        + spec_required_margin(qty as int, price as int, leverage)) as i128,
                    ..record_of(old(self).traders@, sender)
                })
                &&& forall|u: u64|
                    u != sender ==> #[trigger] record_of(final(self).traders@, u) == record_of(
                        old(self).traders@,
                        u,
                    )
                &&& side == Side::Buy ==> final(self).buys@ == old(self).buys@.push(
                    OrderEntry {
                        id: (old(self).next_order_id + 1) as u64,
                        order: OrderData {
                            trader: sender,
                            side,
                            price,
                            qty,
                            leverage,
                            expiry_ts: (now + ttl_secs) as u64,
                        },
                    },
                ) && final(self).sells@ == old(self).sells@
                &&& side == Side::Sell ==> final(self).sells@ == old(self).sells@.push(
                    OrderEntry {
                        id: (old(self).next_order_id + 1) as u64,
                        order: OrderData {
                            trader: sender,
                            side,
                            price,
                            qty,
                            leverage,
                            expiry_ts: (now + ttl_secs) as u64,
                        },
                    },
                ) && final(self).buys@ == old(self).buys@
            },
            old(self).accounts_solvent() ==> final(self).accounts_solvent(),
    {
        if self.paused {
            return Err(ContractError::Paused);
        }
        let margin = required_margin(qty, price, leverage);
        proof {
            lemma_required_margin_nonneg(qty as int, price as int, leverage);
        }
        let rec = get_record(&self.traders, sender);
        let free = match rec.collateral.checked_sub(rec.locked_margin) {
            Some(f) => f,
            None => {
                return Err(ContractError::InsufficientCollateral);
            },
        };
        if free < margin {
            return Err(ContractError::InsufficientCollateral);
        }
        proof {
            assert(record_of(self.traders@, sender).locked_margin >= 0);
        }
        let updated = TraderRecord { locked_margin: rec.locked_margin + margin, ..rec };
        put_record(&mut self.traders, updated);
        let id = self.next_order_id + 1;
        self.next_order_id = id;
        let order = OrderData { trader: sender, side, price, qty, leverage, expiry_ts: now
            + ttl_secs };
        let entry = OrderEntry { id, order };
        match side {
            Side::Buy => self.buys.push(entry),
            Side::Sell => self.sells.push(entry),
        }
        Ok((id, OrderPlaced { trader: sender, id }))
    }

    /// Admits a signed order after checking its replay nonce. The nonce
    /// must equal the trader's stored nonce exactly; a stale or reused
    /// nonce is rejected without touching any account state. A matching
    /// nonce is consumed (incremented) even when the placement itself is
    /// then rejected.
    pub fn submit_signed_order(
        &mut self,
        sender: u64,
        nonce: u64,
        now: u64,
        side: Side,
        price: i128,
        qty: i128,
        leverage: u32,
        ttl_secs: u64,
    ) -> (r: Result<(u64, OrderPlaced), SubmitError>)
        requires
            old(self).wf(),
            0 < qty,
            -PRICE_BOUND <= price <= PRICE_BOUND,
            abs_i(qty as int) * abs_i(price as int) <= i128::MAX,
            now + ttl_secs <= u64::MAX,
            old(self).next_order_id < u64::MAX,
            record_of(old(self).traders@, sender).nonce < u64::MAX,
        ensures
            final(self).wf(),
            nonce != record_of(old(self).traders@, sender).nonce ==> r == Err::<
                (u64, OrderPlaced),
                SubmitError,
            >(
                SubmitError::BadNonce { expected: record_of(old(self).traders@, sender).nonce },
            ) && *final(self) == *old(self),
            nonce == record_of(old(self).traders@, sender).nonce ==> ({
                let bumped = (TraderRecord {
                    nonce: (nonce + 1) as u64,
                    ..record_of(old(self).traders@, sender)
                });
                let rec = record_of(old(self).traders@, sender);
                let margin = spec_required_margin(qty as int, price as int, leverage);
                &&& record_of(final(self).traders@, sender).nonce == nonce + 1
                &&& forall|u: u64|
                    u != sender ==> #[trigger] record_of(final(self).traders@, u) == record_of(
                        old(self).traders@,
                        u,
                    )
                &&& (old(self).paused ==> r == Err::<(u64, OrderPlaced), SubmitError>(
                    SubmitError::Venue(ContractError::Paused),
                ) && record_of(final(self).traders@, sender) == bumped && final(self).buys@ == old(
                    self,
                ).buys@ && final(self).sells@ == old(self).sells@ && final(self).next_order_id
                    == old(self).next_order_id)
                &&& (!old(self).paused && rec.collateral - rec.locked_margin < margin ==> r
                    == Err::<(u64, OrderPlaced), SubmitError>(
                    SubmitError::Venue(ContractError::InsufficientCollateral),
                ) && record_of(final(self).traders@, sender) == bumped && final(self).buys@ == old(
                    self,
                ).buys@ && final(self).sells@ == old(self).sells@ && final(self).next_order_id
                    == old(self).next_order_id)
                &&& (!old(self).paused && rec.collateral - rec.locked_margin >= margin ==> {
                    &&& r == Ok::<(u64, OrderPlaced), SubmitError>(
                        (
                            (old(self).next_order_id + 1) as u64,
                            OrderPlaced {
                                trader: sender,
                                id: (old(self).next_order_id + 1) as u64,
                            },
                        ),
                    )
                    &&& final(self).next_order_id == old(self).next_order_id + 1
                    &&& record_of(final(self).traders@, sender) == (TraderRecord {
                        locked_margin: (rec.locked_margin + margin) as i128,
                        nonce: (nonce + 1) as u64,
                        ..rec
                    })
                    &&& (side == Side::Buy ==> final(self).buys@ == old(self).buys@.push(
                        OrderEntry {
                            id: (old(self).next_order_id + 1) as u64,
                            order: OrderData {
                                trader: sender,
                                side,
                                price,
                                qty,
                                leverage,
                                expiry_ts: (now + ttl_secs) as u64,
                            },
                        },
                    ) && final(self).sells@ == old(self).sells@)
                    &&& (side == Side::Sell ==> final(self).sells@ == old(self).sells@.push(
                        OrderEntry {
                            id: (old(self).next_order_id + 1) as u64,
                            order: OrderData {
                                trader: sender,
                                side,
                                price,
                                qty,
                                leverage,
                                expiry_ts: (now + ttl_secs) as u64,
                            },
                        },
                    ) && final(self).buys@ == old(self).buys@)
                })
            }),
            old(self).accounts_solvent() ==> final(self).accounts_solvent(),
    {
        let rec = get_record(&self.traders, sender);
        if nonce != rec.nonce {
            return Err(SubmitError::BadNonce { expected: rec.nonce });
        }
        let bumped = TraderRecord { nonce: nonce + 1, ..rec };
        put_record(&mut self.traders, bumped);
        match self.place_order(sender, now, side, price, qty, leverage, ttl_secs) {
            Ok(ok) => Ok(ok),
            Err(e) => Err(SubmitError::Venue(e)),
        }
    }
}

/// Law: a sweep of a book with an exhausted side trades nothing, whatever
/// the time: once a trade has removed both heads of a single resting
/// pair, repeating the sweep without new admissions cannot re-match them.
pub proof fn lemma_no_rematch(v: Venue, now: u64)
    requires
        !v.paused,
        v.buys@.len() == 0 || v.sells@.len() == 0,
    ensures
        spec_sweep(v, now) == Ok::<SweepOutcome, ContractError>(SweepOutcome::NoCross),
{
}

} // verus!
