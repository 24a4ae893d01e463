use vstd::prelude::*;

verus! {

/// Which side of the book an order rests on.
#[derive(Clone, Copy, Debug, PartialEq, Eq, Structural)]
pub enum Side {
    Buy,
    Sell,
}

/// A resting order as the off-chain interface sees it.
///
/// Prices are fixed-point integers (six implied decimals), quantities are
/// base units. `qty` is expected positive; the direction is carried by
/// `side`.
#[derive(Clone, Debug, PartialEq)]
pub struct Order {
    pub trader: String,
    pub side: Side,
    pub price: i128,
    pub qty: i128,
    pub leverage: u32,
    pub ts: u64,
    pub expiry_ts: u64,
    pub is_limit: bool,
}

/// A net position: signed quantity (positive = long) at a volume-weighted
/// entry price.
#[derive(Clone, Debug, PartialEq)]
pub struct Position {
    pub trader: String,
    pub entry_price: i128,
    pub qty: i128,
    pub leverage: u32,
    pub margin: i128,
    pub opened_ts: u64,
    pub expiry_ts: u64,
}

/// Per-trader balances: free-plus-locked collateral and the part of it that
/// backs resting orders and open positions.
#[derive(Clone, Copy, Debug, PartialEq, Eq, Structural)]
pub struct Account {
    pub collateral: i128,
    pub locked_margin: i128,
}

/// The latest mark price with its confidence and timestamp.
#[derive(Clone, Copy, Debug, PartialEq, Eq, Structural)]
pub struct OraclePrice {
    pub price: i128,
    pub conf: u64,
    pub ts: u64,
}

/// The payload of a confirmed cross: trade price, crossed quantity and the
/// total fee charged for it.
#[derive(Clone, Copy, Debug, PartialEq, Eq, Structural)]
pub struct TradeExecution {
    pub price: i128,
    pub qty: i128,
    pub fee: i128,
}

/// Rejection errors of the venue: the caller can correct these, and a
/// rejected call changes no state. `InsufficientCollateral` also covers a
/// withdrawal that would dip into locked margin.
#[derive(Clone, Copy, Debug, PartialEq, Eq, Structural)]
pub enum ContractError {
    InsufficientCollateral,
    OrderExpired,
    NotOwner,
    Paused,
}

/// Rejections of a signed-order submission: a stale or reused nonce, or any
/// of the plain venue rejections.
#[derive(Clone, Copy, Debug, PartialEq, Eq, Structural)]
pub enum SubmitError {
    BadNonce { expected: u64 },
    Venue(ContractError),
}

/// Audit event: collateral credited to a trader.
#[derive(Clone, Copy, Debug, PartialEq, Eq, Structural)]
pub struct DepositEvent {
    pub trader: u64,
    pub amount: i128,
}

/// Audit event: collateral paid out to a trader.
#[derive(Clone, Copy, Debug, PartialEq, Eq, Structural)]
pub struct WithdrawEvent {
    pub trader: u64,
    pub amount: i128,
}

/// Audit event: an order was admitted to the book.
#[derive(Clone, Copy, Debug, PartialEq, Eq, Structural)]
pub struct OrderPlaced {
    pub trader: u64,
    pub id: u64,
}

/// Audit event: the two head orders crossed.
#[derive(Clone, Copy, Debug, PartialEq, Eq, Structural)]
pub struct TradeEvent {
    pub buy: u64,
    pub sell: u64,
    pub price: i128,
    pub qty: i128,
}

/// Audit event: a position was force-closed at the given mark price.
#[derive(Clone, Copy, Debug, PartialEq, Eq, Structural)]
pub struct LiquidationEvent {
    pub trader: u64,
    pub mark_price: i128,
}

/// Audit event: fees earned by the venue on a cross.
#[derive(Clone, Copy, Debug, PartialEq, Eq, Structural)]
pub struct FeeAccrued {
    pub maker_fee: i128,
    pub taker_fee: i128,
}

/// Audit event: accrued fees paid out by the operator.
#[derive(Clone, Copy, Debug, PartialEq, Eq, Structural)]
pub struct FeesWithdrawn {
    pub to: u64,
    pub amount: i128,
}

/// An order as the venue's book stores it. Traders are identified by plain
/// integer ids; the transport layer keeps the mapping to addresses or names.
#[derive(Clone, Copy, Debug, PartialEq, Eq, Structural)]
pub struct OrderData {
    pub trader: u64,
    pub side: Side,
    pub price: i128,
    pub qty: i128,
    pub leverage: u32,
    pub expiry_ts: u64,
}

} // verus!
