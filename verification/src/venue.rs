use vstd::prelude::*;

verus! {

use crate::records::{
    get_record, has_trader, put_record, record_of, unique_traders, zero_record, TraderRecord,
};
use crate::types::{
    ContractError, DepositEvent, FeesWithdrawn, OraclePrice, OrderData, WithdrawEvent,
};

/// Largest order price the venue admits, in magnitude: half the `i128`
/// range, so the sum of two admitted prices can never overflow.
pub const PRICE_BOUND: i128 = 85070591730234615865843651857942052863;

/// A resting order together with the id it was acknowledged under.
#[derive(Clone, Copy, Debug, PartialEq, Eq, Structural)]
pub struct OrderEntry {
    pub id: u64,
    pub order: OrderData,
}

/// Every order resting in a book side has a positive quantity and a price
/// within the admitted band.
pub open spec fn book_wf(s: Seq<OrderEntry>) -> bool {
    forall|i: int|
        0 <= i < s.len() ==> 0 < (#[trigger] s[i]).order.qty && -PRICE_BOUND <= s[i].order.price
            <= PRICE_BOUND
}

/// The venue: per-trader ledger and positions, the two arrival-ordered
/// book sides, the oracle snapshot, and the fee/risk configuration. One
/// value of this type is the whole shared state of the matching service;
/// the transport layer guards it with its own locking.
pub struct Venue {
    pub owner: u64,
    pub paused: bool,
    pub next_order_id: u64,
    pub traders: Vec<TraderRecord>,
    pub buys: Vec<OrderEntry>,
    pub sells: Vec<OrderEntry>,
    pub oracle: OraclePrice,
    pub default_expiry_secs: u64,
    pub liquidation_threshold_bps: i128,
    pub maker_fee_bps: u64,
    pub taker_fee_bps: u64,
    pub accrued_fees: i128,
    /// Whether a force-close clamps the resulting collateral at zero (the
    /// ledger-facing policy) or leaves it unclamped. One explicit policy,
    /// applied uniformly to every settlement path.
    pub clamp_negative_collateral: bool,
}

impl Venue {
    /// Structural well-formedness: trader rows unique, locked margin never
    /// negative, resting orders within the admitted band, fee rates at most
    /// 100% and accrued fees non-negative.
    pub open spec fn wf(self) -> bool {
        &&& unique_traders(self.traders@)
        &&& forall|t: u64| (#[trigger] record_of(self.traders@, t)).locked_margin >= 0
        &&& book_wf(self.buys@)
        &&& book_wf(self.sells@)
        &&& self.maker_fee_bps <= 10_000
        &&& self.taker_fee_bps <= 10_000
        &&& 0 <= self.accrued_fees
        &&& 0 <= self.liquidation_threshold_bps
    }

    /// The solvency invariant: no account's collateral is below its locked
    /// margin.
    pub open spec fn accounts_solvent(self) -> bool {
        forall|t: u64|
            (#[trigger] record_of(self.traders@, t)).collateral >= record_of(
                self.traders@,
                t,
            ).locked_margin
    }

    /// Everything but the trader table agrees between the two states.
    pub open spec fn same_except_traders(pre: Venue, post: Venue) -> bool {
        &&& post.owner == pre.owner
        &&& post.paused == pre.paused
        &&& post.next_order_id == pre.next_order_id
        &&& post.buys@ == pre.buys@
        &&& post.sells@ == pre.sells@
        &&& post.oracle == pre.oracle
        &&& post.default_expiry_secs == pre.default_expiry_secs
        &&& post.liquidation_threshold_bps == pre.liquidation_threshold_bps
        &&& post.maker_fee_bps == pre.maker_fee_bps
        &&& post.taker_fee_bps == pre.taker_fee_bps
        &&& post.accrued_fees == pre.accrued_fees
        &&& post.clamp_negative_collateral == pre.clamp_negative_collateral
    }

    /// The administrative configuration (ownership, pause flag, oracle,
    /// expiry default, threshold, fee rates, clamp policy) agrees between
    /// the two states.
    pub open spec fn admin_unchanged(pre: Venue, post: Venue) -> bool {
        &&& post.owner == pre.owner
        &&& post.paused == pre.paused
        &&& post.oracle == pre.oracle
        &&& post.default_expiry_secs == pre.default_expiry_secs
        &&& post.liquidation_threshold_bps == pre.liquidation_threshold_bps
        &&& post.maker_fee_bps == pre.maker_fee_bps
        &&& post.taker_fee_bps == pre.taker_fee_bps
        &&& post.clamp_negative_collateral == pre.clamp_negative_collateral
    }

    /// The step changed at most trader `t`'s record and nothing else.
    pub open spec fn only_trader_changed(pre: Venue, post: Venue, t: u64) -> bool {
        &&& Self::same_except_traders(pre, post)
        &&& forall|u: u64|
            u != t ==> #[trigger] record_of(post.traders@, u) == record_of(pre.traders@, u)
    }

    /// A fresh venue: empty ledger and books, oracle at zero, and the
    /// default risk configuration (one-day order expiry, 50% liquidation
    /// threshold, 2 bps maker and 5 bps taker fee).
    pub fn new(owner: u64, clamp_negative_collateral: bool) -> (v: Venue)
        ensures
            v.wf(),
            v.owner == owner,
            !v.paused,
            v.next_order_id == 0,
            v.traders@.len() == 0,
            v.buys@.len() == 0,
            v.sells@.len() == 0,
            v.oracle == (OraclePrice { price: 0, conf: 0, ts: 0 }),
            v.default_expiry_secs == 86_400,
            v.liquidation_threshold_bps == 5_000,
            v.maker_fee_bps == 2,
            v.taker_fee_bps == 5,
            v.accrued_fees == 0,
            v.clamp_negative_collateral == clamp_negative_collateral,
            forall|t: u64| #[trigger] record_of(v.traders@, t) == zero_record(t),
            v.accounts_solvent(),
    {
        let v = Venue {
            owner,
            paused: false,
            next_order_id: 0,
            traders: Vec::new(),
            buys: Vec::new(),
            sells: Vec::new(),
            oracle: OraclePrice { price: 0, conf: 0, ts: 0 },
            default_expiry_secs: 86_400,
            liquidation_threshold_bps: 5_000,
            maker_fee_bps: 2,
            taker_fee_bps: 5,
            accrued_fees: 0,
            clamp_negative_collateral,
        };
        proof {
            assert forall|t: u64| #[trigger] record_of(v.traders@, t) == zero_record(t) by {
                assert(!has_trader(v.traders@, t));
            }
        }
        v
    }

    /// Resets the venue configuration to its defaults and hands ownership
    /// to `owner`, leaving balances, books and oracle as they are.
    pub fn init(&mut self, owner: u64)
        requires
            old(self).wf(),
        ensures
            final(self).wf(),
            *final(self) == (Venue {
                owner,
                default_expiry_secs: 86_400,
                liquidation_threshold_bps: 5_000,
                maker_fee_bps: 2,
                taker_fee_bps: 5,
                ..*old(self)
            }),
    {
        self.owner = owner;
        self.default_expiry_secs = 86_400;
        self.liquidation_threshold_bps = 5_000;
        self.maker_fee_bps = 2;
        self.taker_fee_bps = 5;
    }

    /// Pauses the venue; only the operator may. Every mutating trader
    /// operation rejects while paused.
    pub fn pause(&mut self, sender: u64) -> (r: Result<(), ContractError>)
        requires
            old(self).wf(),
        ensures
            final(self).wf(),
            sender == old(self).owner ==> r is Ok && *final(self) == (Venue {
                paused: true,
                ..*old(self)
            }),
            sender != old(self).owner ==> r == Err::<(), ContractError>(ContractError::NotOwner)
                && *final(self) == *old(self),
    {
        if sender != self.owner {
            return Err(ContractError::NotOwner);
        }
        self.paused = true;
        Ok(())
    }

    /// Lifts a pause; only the operator may.
    pub fn unpause(&mut self, sender: u64) -> (r: Result<(), ContractError>)
        requires
            old(self).wf(),
        ensures
            final(self).wf(),
            sender == old(self).owner ==> r is Ok && *final(self) == (Venue {
                paused: false,
                ..*old(self)
            }),
            sender != old(self).owner ==> r == Err::<(), ContractError>(ContractError::NotOwner)
                && *final(self) == *old(self),
    {
        if sender != self.owner {
            return Err(ContractError::NotOwner);
        }
        self.paused = false;
        Ok(())
    }

    /// Credits `amount` to `sender`'s collateral. Rejected only while the
    /// venue is paused; a rejected call changes nothing.
    pub fn deposit(&mut self, sender: u64, amount: i128) -> (r: Result<
        DepositEvent,
        ContractError,
    >)
        requires
            old(self).wf(),
            0 <= amount,
            record_of(old(self).traders@, sender).collateral + amount <= i128::MAX,
        ensures
            final(self).wf(),
            old(self).paused ==> r == Err::<DepositEvent, ContractError>(ContractError::Paused)
                && *final(self) == *old(self),
            !old(self).paused ==> {
                &&& r == Ok::<DepositEvent, ContractError>(
                    DepositEvent { trader: sender, amount },
                )
                &&& Self::only_trader_changed(*old(self), *final(self), sender)
                &&& record_of(final(self).traders@, sender) == (TraderRecord {
                    collateral: (record_of(old(self).traders@, sender).collateral + amount) as i128,
                    ..record_of(old(self).traders@, sender)
                })
            },
            old(self).accounts_solvent() ==> final(self).accounts_solvent(),
    {
        if self.paused {
            return Err(ContractError::Paused);
        }
        let rec = get_record(&self.traders, sender);
        let updated = TraderRecord { collateral: rec.collateral + amount, ..rec };
        put_record(&mut self.traders, updated);
        Ok(DepositEvent { trader: sender, amount })
    }

    /// Pays `amount` out of `sender`'s free collateral. Fails with
    /// `InsufficientCollateral` when free collateral (collateral minus
    /// locked margin) does not cover it, and with `Paused` while paused; a
    /// rejected call changes nothing.
    pub fn withdraw(&mut self, sender: u64, amount: i128) -> (r: Result<
        WithdrawEvent,
        ContractError,
    >)
        requires
            old(self).wf(),
            0 <= amount,
        ensures
            final(self).wf(),
            old(self).paused ==> r == Err::<WithdrawEvent, ContractError>(ContractError::Paused)
                && *final(self) == *old(self),
            !old(self).paused && record_of(old(self).traders@, sender).collateral - record_of(
                old(self).traders@,
                sender,
            ).locked_margin < amount ==> r == Err::<WithdrawEvent, ContractError>(
                ContractError::InsufficientCollateral,
            ) && *final(self) == *old(self),
            !old(self).paused && record_of(old(self).traders@, sender).collateral - record_of(
                old(self).traders@,
                sender,
            ).locked_margin >= amount ==> {
                &&& r == Ok::<WithdrawEvent, ContractError>(
                    WithdrawEvent { trader: sender, amount },
                )
                &&& Self::only_trader_changed(*old(self), *final(self), sender)
                &&& record_of(final(self).traders@, sender) == (TraderRecord {
                    collateral: (record_of(old(self).traders@, sender).collateral - amount) as i128,
                    ..record_of(old(self).traders@, sender)
                })
            },
            old(self).accounts_solvent() ==> final(self).accounts_solvent(),
    {
        if self.paused {
            return Err(ContractError::Paused);
        }
        let rec = get_record(&self.traders, sender);
        let free = match rec.collateral.checked_sub(rec.locked_margin) {
            Some(f) => f,
            None => {
                return Err(ContractError::InsufficientCollateral);
            },
        };
        if free < amount {
            return Err(ContractError::InsufficientCollateral);
        }
        proof {
            assert(record_of(self.traders@, sender).locked_margin >= 0);
        }
        let updated = TraderRecord { collateral: rec.collateral - amount, ..rec };
        put_record(&mut self.traders, updated);
        Ok(WithdrawEvent { trader: sender, amount })
    }

    /// Sets margin aside to back an order or position: raises
    /// `trader`'s locked margin without touching collateral. Fails with
    /// `InsufficientCollateral` when free collateral does not cover the
    /// amount, so the solvency invariant holds by construction.
    pub fn lock_margin(&mut self, trader: u64, amount: i128) -> (r: Result<(), ContractError>)
        requires
            old(self).wf(),
            0 <= amount,
        ensures
            final(self).wf(),
            record_of(old(self).traders@, trader).collateral - record_of(
                old(self).traders@,
                trader,
            ).locked_margin < amount ==> r == Err::<(), ContractError>(
                ContractError::InsufficientCollateral,
            ) && *final(self) == *old(self),
            record_of(old(self).traders@, trader).collateral - record_of(
                old(self).traders@,
                trader,
            ).locked_margin >= amount ==> r is Ok && Self::only_trader_changed(
                *old(self),
                *final(self),
                trader,
            ) && record_of(final(self).traders@, trader) == (TraderRecord {
                locked_margin: (record_of(old(self).traders@, trader).locked_margin
                    + amount) as i128,
                ..record_of(old(self).traders@, trader)
            }),
            old(self).accounts_solvent() ==> final(self).accounts_solvent(),
    {
        let rec = get_record(&self.traders, trader);
        let free = match rec.collateral.checked_sub(rec.locked_margin) {
            Some(f) => f,
            None => {
                return Err(ContractError::InsufficientCollateral);
            },
        };
        if free < amount {
            return Err(ContractError::InsufficientCollateral);
        }
        proof {
            assert(record_of(self.traders@, trader).locked_margin >= 0);
        }
        let updated = TraderRecord { locked_margin: rec.locked_margin + amount, ..rec };
        put_record(&mut self.traders, updated);
        Ok(())
    }

    /// Hands margin back: lowers `trader`'s locked margin without touching
    /// collateral, clamped at what is actually locked so the locked amount
    /// never goes negative.
    pub fn release_margin(&mut self, trader: u64, amount: i128)
        requires
            old(self).wf(),
            0 <= amount,
        ensures
            final(self).wf(),
            Self::only_trader_changed(*old(self), *final(self), trader),
            record_of(final(self).traders@, trader) == (TraderRecord {
                locked_margin: (if amount > record_of(old(self).traders@, trader).locked_margin {
                    0
                } else {
                    record_of(old(self).traders@, trader).locked_margin - amount
                }) as i128,
                ..record_of(old(self).traders@, trader)
            }),
            old(self).accounts_solvent() ==> final(self).accounts_solvent(),
    {
        let rec = get_record(&self.traders, trader);
        proof {
            assert(record_of(self.traders@, trader).locked_margin >= 0);
        }
        let released = if amount > rec.locked_margin {
            rec.locked_margin
        } else {
            amount
        };
        let updated = TraderRecord { locked_margin: rec.locked_margin - released, ..rec };
        put_record(&mut self.traders, updated);
    }

    /// Sets the maker and taker fee rates, in basis points; only the
    /// operator may.
    pub fn set_fees(&mut self, sender: u64, maker_bps: u64, taker_bps: u64) -> (r: Result<
        (),
        ContractError,
    >)
        requires
            old(self).wf(),
            maker_bps <= 10_000,
            taker_bps <= 10_000,
        ensures
            final(self).wf(),
            sender == old(self).owner ==> r is Ok && *final(self) == (Venue {
                maker_fee_bps: maker_bps,
                taker_fee_bps: taker_bps,
                ..*old(self)
            }),
            sender != old(self).owner ==> r == Err::<(), ContractError>(ContractError::NotOwner)
                && *final(self) == *old(self),
    {
        if sender != self.owner {
            return Err(ContractError::NotOwner);
        }
        self.maker_fee_bps = maker_bps;
        self.taker_fee_bps = taker_bps;
        Ok(())
    }

    /// Pays accrued venue fees out to `to`, clamped at what has actually
    /// accrued; only the operator may.
    pub fn withdraw_fees(&mut self, sender: u64, to: u64, amount: i128) -> (r: Result<
        FeesWithdrawn,
        ContractError,
    >)
        requires
            old(self).wf(),
            0 <= amount,
        ensures
            final(self).wf(),
            sender != old(self).owner ==> r == Err::<FeesWithdrawn, ContractError>(
                ContractError::NotOwner,
            ) && *final(self) == *old(self),
            sender == old(self).owner ==> ({
                let paid = if amount > old(self).accrued_fees {
                    old(self).accrued_fees as int
                } else {
                    amount as int
                };
                &&& r == Ok::<FeesWithdrawn, ContractError>(
                    FeesWithdrawn { to, amount: paid as i128 },
                )
                &&& *final(self) == (Venue {
                    accrued_fees: (old(self).accrued_fees - paid) as i128,
                    ..*old(self)
                })
            }),
    {
        if sender != self.owner {
            return Err(ContractError::NotOwner);
        }
        let paid = if amount > self.accrued_fees {
            self.accrued_fees
        } else {
            amount
        };
        self.accrued_fees = self.accrued_fees - paid;
        Ok(FeesWithdrawn { to, amount: paid })
    }

    /// Publishes a new oracle mark price with a fresh timestamp; only the
    /// operator may. Timestamps never move backwards.
    pub fn update_oracle_price(&mut self, sender: u64, price: i128, now: u64) -> (r: Result<
        (),
        ContractError,
    >)
        requires
            old(self).wf(),
            old(self).oracle.ts <= now,
        ensures
            final(self).wf(),
            sender == old(self).owner ==> r is Ok && *final(self) == (Venue {
                oracle: OraclePrice { price, conf: old(self).oracle.conf, ts: now },
                ..*old(self)
            }),
            sender != old(self).owner ==> r == Err::<(), ContractError>(ContractError::NotOwner)
                && *final(self) == *old(self),
            final(self).oracle.ts >= old(self).oracle.ts,
    {
        if sender != self.owner {
            return Err(ContractError::NotOwner);
        }
        self.oracle = OraclePrice { price, conf: self.oracle.conf, ts: now };
        Ok(())
    }

    /// The nonce the venue expects on `trader`'s next signed submission.
    pub fn current_nonce(&self, trader: u64) -> (r: u64)
        requires
            self.wf(),
        ensures
            r == record_of(self.traders@, trader).nonce,
    {
        get_record(&self.traders, trader).nonce
    }
}

} // verus!
