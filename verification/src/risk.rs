use vstd::prelude::*;

verus! {

use crate::types::{Account, OraclePrice, Position};

/// Margin-engine rejection: the order's initial margin exceeds the trader's
/// free collateral.
#[derive(Clone, Copy, Debug, PartialEq, Eq, Structural)]
pub enum RiskError {
    InsufficientCollateral { needed: i128, have: i128 },
}

/// Magnitude of a mathematical integer.
pub open spec fn abs_i(x: int) -> int {
    if x >= 0 {
        x
    } else {
        -x
    }
}

/// Integer division truncating toward zero, which is how `/` behaves on
/// Rust's signed integers (`/` on `int` rounds toward negative infinity
/// instead).
pub open spec fn div_trunc(x: int, d: int) -> int
    recommends
        d != 0,
{
    if x == 0 {
        0
    } else if x > 0 && d > 0 {
        x / d
    } else if x < 0 && d < 0 {
        (x * -1) / (d * -1)
    } else if x < 0 {
        ((x * -1) / d) * -1
    } else {
        (x / (d * -1)) * -1
    }
}

/// Initial margin of an order: notional over leverage, truncating toward
/// zero, with leverage 0 treated as 1.
pub open spec fn spec_required_margin(qty: int, price: int, leverage: u32) -> int {
    div_trunc(abs_i(qty) * abs_i(price), if leverage >= 1 { leverage as int } else { 1 })
}

/// Unrealized profit of a position marked at `mark`: the price move times
/// the signed quantity, so a short position gains when the price falls.
pub open spec fn spec_pnl(entry: int, qty: int, mark: int) -> int {
    (mark - entry) * qty
}

/// The value clamped into `i64` range.
pub open spec fn spec_clamp_i64(v: int) -> int {
    if v > i64::MAX {
        i64::MAX as int
    } else if v < i64::MIN {
        i64::MIN as int
    } else {
        v
    }
}

/// Equity of an account: collateral plus unrealized profit, minus the
/// margin locked against it.
pub open spec fn spec_equity(collateral: int, locked: int, pnl: int) -> int {
    collateral + pnl - locked
}

/// Margin health in basis points: equity over locked margin, truncating.
/// Meaningful only when margin is locked.
pub open spec fn spec_health_bps(equity: int, locked: int) -> int
    recommends
        locked != 0,
{
    div_trunc(equity * 10_000, locked)
}

/// Initial margin an order must lock: `|qty| * |price| / max(leverage, 1)`,
/// truncating toward zero.
pub fn required_margin(qty: i128, price: i128, leverage: u32) -> (r: i128)
    requires
        i128::MIN < qty,
        i128::MIN < price,
        abs_i(qty as int) * abs_i(price as int) <= i128::MAX,
    ensures
        r == spec_required_margin(qty as int, price as int, leverage),
{
    let q: i128 = if qty >= 0 {
        qty
    } else {
        -qty
    };
    let p: i128 = if price >= 0 {
        price
    } else {
        -price
    };
    let lev: i128 = if leverage >= 1 {
        leverage as i128
    } else {
        1
    };
    proof {
        assert(0 <= q * p) by (nonlinear_arith)
            requires
                q >= 0,
                p >= 0,
        ;
    }
    let notional: i128 = q * p;
    match notional.checked_div(lev) {
        Some(m) => {
            proof {
                if notional == 0 {
                    vstd::arithmetic::div_mod::lemma_div_of0(lev as int);
                }
            }
            m
        },
        None => 0,
    }
}

/// Unrealized profit of `pos` at the oracle's mark price. Exact for longs
/// and shorts alike: the result is `(mark - entry) * qty` with `qty`
/// signed.
pub fn pnl_unrealized(pos: &Position, mark: &OraclePrice) -> (r: i128)
    requires
        i128::MIN < pos.qty,
        -i128::MAX <= mark.price - pos.entry_price <= i128::MAX,
        -i128::MAX <= spec_pnl(pos.entry_price as int, pos.qty as int, mark.price as int)
            <= i128::MAX,
    ensures
        r == spec_pnl(pos.entry_price as int, pos.qty as int, mark.price as int),
{
    let diff: i128 = mark.price - pos.entry_price;
    let sign: i128 = if pos.qty > 0 {
        1
    } else if pos.qty < 0 {
        -1
    } else {
        0
    };
    let per_unit: i128 = diff * sign;
    let qabs: i128 = if pos.qty >= 0 {
        pos.qty
    } else {
        -pos.qty
    };
    proof {
        let d = mark.price as int - pos.entry_price as int;
        let q = pos.qty as int;
        assert(per_unit as int == d * sign as int) by (nonlinear_arith)
            requires
                per_unit == diff * sign,
                diff == d,
        ;
        assert((d * 1) * q == d * q && (d * -1) * -q == d * q && (d * 0) * 0 == 0)
            by (nonlinear_arith);
        if q > 0 {
            assert(per_unit as int * qabs as int == d * q);
        } else if q < 0 {
            assert(per_unit as int * qabs as int == d * q);
        } else {
            assert(d * q == 0) by (nonlinear_arith)
                requires
                    q == 0,
            ;
        }
    }
    per_unit * qabs
}

/// The value clamped into `i64` range, saturating at the bounds.
pub fn clamp_i128_to_i64(v: i128) -> (r: i64)
    ensures
        r as int == spec_clamp_i64(v as int),
{
    if v > i64::MAX as i128 {
        i64::MAX
    } else if v < i64::MIN as i128 {
        i64::MIN
    } else {
        v as i64
    }
}

/// Signed quantity of an optional position, zero when there is none.
pub open spec fn spec_pos_qty(pos: Option<&Position>) -> int {
    match pos {
        Some(p) => p.qty as int,
        None => 0,
    }
}

/// Entry price of an optional position, zero when there is none.
pub open spec fn spec_pos_entry(pos: Option<&Position>) -> int {
    match pos {
        Some(p) => p.entry_price as int,
        None => 0,
    }
}

/// Snapshot arithmetic for one trader: unrealized profit clamped to `i64`,
/// and, when margin is locked, the margin-health ratio in basis points,
/// clamped the same way. A trader with no locked margin has no position at
/// risk and gets no health figure.
pub fn compute_health_and_pnl(acc: &Account, pos: Option<&Position>, mark: i128) -> (r: (
    i64,
    Option<i64>,
))
    requires
        -i128::MAX <= mark - spec_pos_entry(pos) <= i128::MAX,
        -i128::MAX <= spec_pnl(spec_pos_entry(pos), spec_pos_qty(pos), mark as int) <= i128::MAX,
        i128::MIN <= acc.collateral + spec_pnl(spec_pos_entry(pos), spec_pos_qty(pos), mark as int)
            <= i128::MAX,
        i128::MIN <= spec_equity(
            acc.collateral as int,
            acc.locked_margin as int,
            spec_pnl(spec_pos_entry(pos), spec_pos_qty(pos), mark as int),
        ) <= i128::MAX,
        acc.locked_margin != 0 ==> i128::MIN <= spec_equity(
            acc.collateral as int,
            acc.locked_margin as int,
            spec_pnl(spec_pos_entry(pos), spec_pos_qty(pos), mark as int),
        ) * 10_000 <= i128::MAX,
    ensures
        r.0 as int == spec_clamp_i64(
            spec_pnl(spec_pos_entry(pos), spec_pos_qty(pos), mark as int),
        ),
        acc.locked_margin == 0 ==> r.1 is None,
        acc.locked_margin != 0 ==> (r.1 matches Some(h) && h as int == spec_clamp_i64(
            spec_health_bps(
                spec_equity(
                    acc.collateral as int,
                    acc.locked_margin as int,
                    spec_pnl(spec_pos_entry(pos), spec_pos_qty(pos), mark as int),
                ),
                acc.locked_margin as int,
            ),
        )),
{
    let (qty, entry): (i128, i128) = match pos {
        Some(p) => (p.qty, p.entry_price),
        None => (0, 0),
    };
    let diff: i128 = mark - entry;
    let pnl_i128: i128 = diff * qty;
    let with_pnl: i128 = acc.collateral + pnl_i128;
    let equity_i128: i128 = with_pnl - acc.locked_margin;
    let pnl = clamp_i128_to_i64(pnl_i128);
    let health_bps: Option<i64> = if acc.locked_margin == 0 {
        None
    } else {
        let scaled: i128 = equity_i128 * 10_000;
        match scaled.checked_div(acc.locked_margin) {
            Some(h) => Some(clamp_i128_to_i64(h)),
            None => None,
        }
    };
    (pnl, health_bps)
}

/// The product of two non-negative integers is non-negative.
pub proof fn lemma_mul_nonneg(x: int, y: int)
    requires
        0 <= x,
        0 <= y,
    ensures
        0 <= x * y,
{
    assert(0 <= x * y) by (nonlinear_arith)
        requires
            0 <= x,
            0 <= y,
    ;
}

/// Truncating division never grows the magnitude: for a positive divisor
/// the quotient lies between zero and the dividend.
pub proof fn lemma_div_trunc_bounds(x: int, d: int)
    requires
        0 < d,
    ensures
        0 <= x ==> 0 <= div_trunc(x, d) <= x,
        x < 0 ==> x <= div_trunc(x, d) <= 0,
        abs_i(div_trunc(x, d)) <= abs_i(x),
{
    if x == 0 {
    } else if x > 0 {
        vstd::arithmetic::div_mod::lemma_div_pos_is_pos(x, d);
        vstd::arithmetic::div_mod::lemma_div_is_ordered_by_denominator(x, 1, d);
        vstd::arithmetic::div_mod::lemma_div_basics(x);
    } else {
        vstd::arithmetic::div_mod::lemma_div_pos_is_pos(-x, d);
        vstd::arithmetic::div_mod::lemma_div_is_ordered_by_denominator(-x, 1, d);
        vstd::arithmetic::div_mod::lemma_div_basics(-x);
    }
}

/// Required margin is never negative.
pub proof fn lemma_required_margin_nonneg(qty: int, price: int, leverage: u32)
    ensures
        0 <= spec_required_margin(qty, price, leverage),
{
    lemma_mul_nonneg(abs_i(qty), abs_i(price));
    let lev: int = if leverage >= 1 {
        leverage as int
    } else {
        1
    };
    lemma_div_trunc_bounds(abs_i(qty) * abs_i(price), lev);
}

/// Law: required margin is monotonically decreasing in leverage — a higher
/// leverage never demands more initial margin.
pub proof fn lemma_required_margin_monotone(qty: int, price: int, l1: u32, l2: u32)
    requires
        1 <= l1 <= l2,
    ensures
        spec_required_margin(qty, price, l2) <= spec_required_margin(qty, price, l1),
{
    let n = abs_i(qty) * abs_i(price);
    lemma_mul_nonneg(abs_i(qty), abs_i(price));
    if n == 0 {
    } else {
        vstd::arithmetic::div_mod::lemma_div_is_ordered_by_denominator(n, l1 as int, l2 as int);
    }
}

/// Law: at leverage 1 the required margin is the full notional,
/// `|qty| * |price|`.
pub proof fn lemma_required_margin_at_leverage_one(qty: int, price: int)
    ensures
        spec_required_margin(qty, price, 1) == abs_i(qty) * abs_i(price),
{
    let n = abs_i(qty) * abs_i(price);
    lemma_mul_nonneg(abs_i(qty), abs_i(price));
    vstd::arithmetic::div_mod::lemma_div_basics(n);
}

/// Law: unrealized profit is antisymmetric in the position's direction —
/// flipping a position into a short of the same magnitude negates it.
pub proof fn lemma_pnl_antisymmetric(entry: int, qty: int, mark: int)
    ensures
        spec_pnl(entry, -qty, mark) == -spec_pnl(entry, qty, mark),
{
    assert((mark - entry) * (-qty) == -((mark - entry) * qty)) by (nonlinear_arith);
}

} // verus!
