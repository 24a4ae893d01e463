use vstd::prelude::*;

verus! {

use crate::liquidation::rec_equity;
use crate::records::{lemma_row_is_record, TraderRecord};
use crate::risk::{clamp_i128_to_i64, div_trunc, spec_clamp_i64, spec_pnl};
use crate::venue::Venue;

/// One trader's row of the read-model snapshot: balances, position,
/// unrealized profit and margin health (absent when no margin is locked),
/// and the replay nonce — all narrowed to `i64` for transport, saturating
/// at the bounds.
#[derive(Clone, Copy, Debug, PartialEq, Eq)]
pub struct TraderView {
    pub trader: u64,
    pub collateral: i64,
    pub locked_margin: i64,
    pub qty: i64,
    pub entry_price: i64,
    pub pnl: i64,
    pub health_bps: Option<i64>,
    pub nonce: u64,
}

/// Whether the snapshot arithmetic for `rec` at `mark` stays inside
/// `i128`.
pub open spec fn view_fits(rec: TraderRecord, mark: i128) -> bool {
    &&& i128::MIN <= mark - rec.pos_entry <= i128::MAX
    &&& i128::MIN <= spec_pnl(rec.pos_entry as int, rec.pos_qty as int, mark as int) <= i128::MAX
    &&& i128::MIN <= rec.collateral + spec_pnl(
        rec.pos_entry as int,
        rec.pos_qty as int,
        mark as int,
    ) <= i128::MAX
    &&& i128::MIN <= rec_equity(rec, mark) <= i128::MAX
    &&& (rec.locked_margin != 0 ==> i128::MIN <= rec_equity(rec, mark) * 10_000 <= i128::MAX)
}

/// The exact snapshot row of a stored record at `mark`. The health figure
/// is equity over locked margin in basis points, truncating, not clamped
/// below zero — a deeply unhealthy account reads negative here, while the
/// liquidation path clamps at zero.
pub open spec fn spec_view(rec: TraderRecord, mark: i128) -> TraderView {
    TraderView {
        trader: rec.trader,
        collateral: spec_clamp_i64(rec.collateral as int) as i64,
        locked_margin: spec_clamp_i64(rec.locked_margin as int) as i64,
        qty: spec_clamp_i64(rec.pos_qty as int) as i64,
        entry_price: spec_clamp_i64(rec.pos_entry as int) as i64,
        pnl: spec_clamp_i64(
            spec_pnl(rec.pos_entry as int, rec.pos_qty as int, mark as int),
        ) as i64,
        health_bps: if rec.locked_margin == 0 {
            None
        } else {
            Some(
                spec_clamp_i64(
                    div_trunc(rec_equity(rec, mark) * 10_000, rec.locked_margin as int),
                ) as i64,
            )
        },
        nonce: rec.nonce,
    }
}

/// Builds one snapshot row. Exact whenever the arithmetic fits in `i128`
/// ([`view_fits`]); pathological magnitudes saturate instead of failing.
fn view_of_record(rec: TraderRecord, mark: i128) -> (v: TraderView)
    requires
        0 <= rec.locked_margin,
    ensures
        v.trader == rec.trader,
        v.nonce == rec.nonce,
        v.collateral as int == spec_clamp_i64(rec.collateral as int),
        v.locked_margin as int == spec_clamp_i64(rec.locked_margin as int),
        v.qty as int == spec_clamp_i64(rec.pos_qty as int),
        v.entry_price as int == spec_clamp_i64(rec.pos_entry as int),
        v.health_bps is None <==> rec.locked_margin == 0,
        view_fits(rec, mark) ==> v == spec_view(rec, mark),
{
    let pnl_sat: i128 = match mark.checked_sub(rec.pos_entry) {
        Some(d) => match d.checked_mul(rec.pos_qty) {
            Some(p) => p,
            None => {
                if (d > 0) == (rec.pos_qty > 0) {
                    i128::MAX
                } else {
                    i128::MIN
                }
            },
        },
        None => {
            if rec.pos_qty == 0 {
                0
            } else if (mark > rec.pos_entry) == (rec.pos_qty > 0) {
                i128::MAX
            } else {
                i128::MIN
            }
        },
    };
    let with_pnl: i128 = match rec.collateral.checked_add(pnl_sat) {
        Some(v) => v,
        None => {
            if pnl_sat > 0 {
                i128::MAX
            } else {
                i128::MIN
            }
        },
    };
    let equity_sat: i128 = match with_pnl.checked_sub(rec.locked_margin) {
        Some(v) => v,
        None => {
            if with_pnl >= 0 {
                i128::MAX
            } else {
                i128::MIN
            }
        },
    };
    let health_bps: Option<i64> = if rec.locked_margin == 0 {
        None
    } else {
        let scaled: i128 = match equity_sat.checked_mul(10_000) {
            Some(v) => v,
            None => {
                if equity_sat > 0 {
                    i128::MAX
                } else {
                    i128::MIN
                }
            },
        };
        let h: i128 = match scaled.checked_div(rec.locked_margin) {
            Some(v) => v,
            None => i128::MAX,
        };
        proof {
            if view_fits(rec, mark) {
                crate::risk::lemma_div_trunc_bounds(scaled as int, rec.locked_margin as int);
            }
        }
        Some(clamp_i128_to_i64(h))
    };
    TraderView {
        trader: rec.trader,
        collateral: clamp_i128_to_i64(rec.collateral),
        locked_margin: clamp_i128_to_i64(rec.locked_margin),
        qty: clamp_i128_to_i64(rec.pos_qty),
        entry_price: clamp_i128_to_i64(rec.pos_entry),
        pnl: clamp_i128_to_i64(pnl_sat),
        health_bps,
        nonce: rec.nonce,
    }
}

impl Venue {
    /// The read-model snapshot: one row per known trader, in insertion
    /// order, all evaluated against the single mark price handed in.
    pub fn snapshot(&self, mark: i128) -> (out: Vec<TraderView>)
        requires
            self.wf(),
        ensures
            out@.len() == self.traders@.len(),
            forall|i: int|
                0 <= i < out@.len() ==> {
                    let rec = self.traders@[i];
                    &&& (#[trigger] out@[i]).trader == rec.trader
                    &&& out@[i].nonce == rec.nonce
                    &&& out@[i].collateral as int == spec_clamp_i64(rec.collateral as int)
                    &&& out@[i].locked_margin as int == spec_clamp_i64(rec.locked_margin as int)
                    &&& out@[i].qty as int == spec_clamp_i64(rec.pos_qty as int)
                    &&& out@[i].entry_price as int == spec_clamp_i64(rec.pos_entry as int)
                    &&& (out@[i].health_bps is None <==> rec.locked_margin == 0)
                    &&& (view_fits(rec, mark) ==> out@[i] == spec_view(rec, mark))
                },
    {
        let mut out: Vec<TraderView> = Vec::new();
        let mut i: usize = 0;
        while i < self.traders.len()
            invariant
                self.wf(),
                i <= self.traders@.len(),
                out@.len() == i,
                forall|k: int|
                    0 <= k < i ==> {
                        let rec = self.traders@[k];
                        &&& (#[trigger] out@[k]).trader == rec.trader
                        &&& out@[k].nonce == rec.nonce
                        &&& out@[k].collateral as int == spec_clamp_i64(rec.collateral as int)
                        &&& out@[k].locked_margin as int == spec_clamp_i64(
                            rec.locked_margin as int,
                        )
                        &&& out@[k].qty as int == spec_clamp_i64(rec.pos_qty as int)
                        &&& out@[k].entry_price as int == spec_clamp_i64(rec.pos_entry as int)
                        &&& (out@[k].health_bps is None <==> rec.locked_margin == 0)
                        &&& (view_fits(rec, mark) ==> out@[k] == spec_view(rec, mark))
                    },
            decreases self.traders@.len() - i,
        {
            let rec = self.traders[i];
            proof {
                lemma_row_is_record(self.traders@, i as int);
                assert(crate::records::record_of(self.traders@, rec.trader).locked_margin >= 0);
            }
            let v = view_of_record(rec, mark);
            out.push(v);
            i += 1;
        }
        out
    }
}

} // verus!
