//! Core engine of a perpetual-futures trading venue.
//!
//! The crate models the venue as an explicit state machine ([`venue::Venue`])
//! holding per-trader collateral, locked margin and net positions, two
//! arrival-ordered order queues, an oracle price and the fee configuration.
//! Matching, margin checks, liquidation and the settlement-synchronisation
//! decisions are all ordinary executable functions with contracts; the
//! transport layer (HTTP, websockets, chain RPC) lives outside the crate and
//! only hands plain values in and out.

pub mod feed;
pub mod liquidation;
pub mod matching;
pub mod records;
pub mod risk;
pub mod sync;
pub mod types;
pub mod venue;
pub mod view;

pub use risk::clamp_i128_to_i64;
pub use risk::compute_health_and_pnl;
pub use risk::pnl_unrealized;
pub use risk::required_margin;
pub use risk::RiskError;
pub use types::Account;
pub use types::Order;
pub use types::OraclePrice;
pub use types::Position;
pub use types::Side;
pub use types::TradeExecution;
