use vstd::prelude::*;

verus! {

/// How the mirror settles: against the authoritative on-chain ledger, or
/// in a degraded local-only mode. The mode is chosen once at startup and
/// signalled explicitly to callers, never substituted silently.
#[derive(Clone, Copy, Debug, PartialEq, Eq, Structural)]
pub enum SyncMode {
    Authoritative,
    LocalOnly,
}

/// Base of the local order-id namespace. Locally assigned fallback ids
/// all live at or above this base so they can never collide with
/// authoritative ids, which are assigned by a counter starting at one.
pub const LOCAL_ID_BASE: u64 = 9223372036854775808;

/// Picks the settlement mode from the startup configuration: the
/// authoritative ledger is used exactly when an endpoint is configured.
pub fn select_mode(endpoint_configured: bool) -> (m: SyncMode)
    ensures
        m == (if endpoint_configured {
            SyncMode::Authoritative
        } else {
            SyncMode::LocalOnly
        }),
{
    if endpoint_configured {
        SyncMode::Authoritative
    } else {
        SyncMode::LocalOnly
    }
}

/// The id an admitted order is acknowledged under: the authoritative
/// ledger's own id when propagation returned one — it supersedes any
/// local fallback — and the local id otherwise.
pub fn effective_order_id(authoritative: Option<u64>, local: u64) -> (r: u64)
    ensures
        r == (match authoritative {
            Some(id) => id,
            None => local,
        }),
{
    match authoritative {
        Some(id) => id,
        None => local,
    }
}

/// The next monotonically assigned local fallback id, derived from how
/// many orders currently rest. It always lies in the local namespace,
/// disjoint from authoritative ids.
pub fn next_local_order_id(resting_buys: usize, resting_sells: usize) -> (r: u64)
    requires
        resting_buys + resting_sells + 1 < LOCAL_ID_BASE,
    ensures
        r == LOCAL_ID_BASE + resting_buys + resting_sells + 1,
        r > LOCAL_ID_BASE,
{
    LOCAL_ID_BASE + resting_buys as u64 + resting_sells as u64 + 1
}

/// Whether a prepared cross may be committed to the mirror book: always
/// in local-only mode, and only after successful propagation when the
/// authoritative ledger is in use. On a failed propagation the orders
/// keep resting and the sweep retries — at-least-once delivery.
pub fn should_commit(mode: SyncMode, propagated: bool) -> (r: bool)
    ensures
        r == (mode == SyncMode::LocalOnly || propagated),
{
    match mode {
        SyncMode::LocalOnly => true,
        SyncMode::Authoritative => propagated,
    }
}

} // verus!
