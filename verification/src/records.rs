use vstd::prelude::*;

verus! {

/// Everything the venue stores for one trader: balances, net position and
/// the replay-protection nonce. Absent traders are equivalent to a stored
/// zero record, mirroring a map with a default value.
#[derive(Clone, Copy, Debug, PartialEq, Eq, Structural)]
pub struct TraderRecord {
    pub trader: u64,
    pub collateral: i128,
    pub locked_margin: i128,
    pub pos_qty: i128,
    pub pos_entry: i128,
    pub nonce: u64,
}

/// The record of a trader the table has never seen.
pub open spec fn zero_record(t: u64) -> TraderRecord {
    TraderRecord {
        trader: t,
        collateral: 0,
        locked_margin: 0,
        pos_qty: 0,
        pos_entry: 0,
        nonce: 0,
    }
}

/// No two rows of the table describe the same trader.
pub open spec fn unique_traders(s: Seq<TraderRecord>) -> bool {
    forall|i: int, j: int|
        0 <= i < j < s.len() ==> (#[trigger] s[i]).trader != (#[trigger] s[j]).trader
}

/// Whether the table holds a row for trader `t`.
pub open spec fn has_trader(s: Seq<TraderRecord>, t: u64) -> bool {
    exists|i: int| 0 <= i < s.len() && (#[trigger] s[i]).trader == t
}

/// The index of trader `t`'s row, when one exists.
pub open spec fn trader_at(s: Seq<TraderRecord>, t: u64) -> int {
    choose|i: int| 0 <= i < s.len() && (#[trigger] s[i]).trader == t
}

/// The record stored for trader `t`, or the zero record when the table has
/// none: the table behaves as a total map with a zero default.
pub open spec fn record_of(s: Seq<TraderRecord>, t: u64) -> TraderRecord {
    if has_trader(s, t) {
        s[trader_at(s, t)]
    } else {
        zero_record(t)
    }
}

/// A trader's record always carries its own id, stored or not.
pub proof fn lemma_record_trader(s: Seq<TraderRecord>, t: u64)
    ensures
        record_of(s, t).trader == t,
{
    if has_trader(s, t) {
        let i = trader_at(s, t);
        assert(0 <= i < s.len() && s[i].trader == t);
    }
}

/// In a table without duplicates, the row at `i` is exactly what the map
/// reads for that row's trader.
pub proof fn lemma_row_is_record(s: Seq<TraderRecord>, i: int)
    requires
        unique_traders(s),
        0 <= i < s.len(),
    ensures
        record_of(s, s[i].trader) == s[i],
{
    let t = s[i].trader;
    assert(has_trader(s, t));
    let j = trader_at(s, t);
    assert(0 <= j < s.len() && s[j].trader == t);
    if j != i {
        assert(s[i].trader != s[j].trader);
    }
}

/// Index of the first row for trader `t`, scanning from the front.
fn find_trader(rows: &Vec<TraderRecord>, t: u64) -> (r: Option<usize>)
    ensures
        match r {
            Some(i) => i < rows@.len() && rows@[i as int].trader == t,
            None => !has_trader(rows@, t),
        },
{
    let mut i: usize = 0;
    while i < rows.len()
        invariant
            i <= rows@.len(),
            forall|k: int| 0 <= k < i ==> (#[trigger] rows@[k]).trader != t,
        decreases rows@.len() - i,
    {
        if rows[i].trader == t {
            return Some(i);
        }
        i += 1;
    }
    None
}

/// The record stored for trader `t`, or the zero record when there is
/// none.
pub fn get_record(rows: &Vec<TraderRecord>, t: u64) -> (r: TraderRecord)
    requires
        unique_traders(rows@),
    ensures
        r == record_of(rows@, t),
{
    match find_trader(rows, t) {
        Some(i) => {
            let r = rows[i];
            proof {
                assert(has_trader(rows@, t));
                let j = trader_at(rows@, t);
                assert(0 <= j < rows@.len() && rows@[j].trader == t);
                assert(j == i as int);
            }
            r
        },
        None => TraderRecord {
            trader: t,
            collateral: 0,
            locked_margin: 0,
            pos_qty: 0,
            pos_entry: 0,
            nonce: 0,
        },
    }
}

/// Stores `rec` as trader `rec.trader`'s record, replacing the previous row
/// or appending a fresh one. Every other trader's record is untouched.
pub fn put_record(rows: &mut Vec<TraderRecord>, rec: TraderRecord)
    requires
        unique_traders(old(rows)@),
    ensures
        unique_traders(final(rows)@),
        record_of(final(rows)@, rec.trader) == rec,
        forall|u: u64|
            u != rec.trader ==> #[trigger] record_of(final(rows)@, u) == record_of(old(rows)@, u),
        forall|u: u64|
            #[trigger] has_trader(final(rows)@, u) <==> has_trader(old(rows)@, u) || u
                == rec.trader,
        final(rows)@.len() <= old(rows)@.len() + 1,
{
    let t = rec.trader;
    let ghost pre = rows@;
    match find_trader(rows, t) {
        Some(i) => {
            let slot = &mut rows[i];
            *slot = rec;
            proof {
                assert(rows@ =~= pre.update(i as int, rec));
                lemma_put_update(pre, rows@, i as int, rec);
            }
        },
        None => {
            rows.push(rec);
            proof {
                assert(rows@ =~= pre.push(rec));
                lemma_put_push(pre, rows@, rec);
            }
        },
    }
}

/// After replacing the row at `i` (which already belonged to `rec.trader`)
/// by `rec`, the table reads as the map updated at that one trader.
proof fn lemma_put_update(pre: Seq<TraderRecord>, post: Seq<TraderRecord>, i: int, rec: TraderRecord)
    requires
        unique_traders(pre),
        0 <= i < pre.len(),
        pre[i].trader == rec.trader,
        post == pre.update(i, rec),
    ensures
        unique_traders(post),
        record_of(post, rec.trader) == rec,
        forall|u: u64| u != rec.trader ==> #[trigger] record_of(post, u) == record_of(pre, u),
        forall|u: u64| #[trigger] has_trader(post, u) <==> has_trader(pre, u) || u == rec.trader,
        post.len() == pre.len(),
{
    let t = rec.trader;
    assert forall|a: int, b: int| 0 <= a < b < post.len() implies (#[trigger] post[a]).trader != (
    #[trigger] post[b]).trader by {
        assert(pre[a].trader != pre[b].trader);
    }
    assert(has_trader(post, t)) by {
        assert(post[i].trader == t);
    }
    let j = trader_at(post, t);
    assert(0 <= j < post.len() && post[j].trader == t);
    assert(j == i) by {
        if j != i {
            assert(post[j] == pre[j]);
            assert(pre[j].trader == t && pre[i].trader == t);
        }
    }
    assert(record_of(post, t) == rec);
    assert forall|u: u64| u != t implies #[trigger] record_of(post, u) == record_of(pre, u) by {
        if has_trader(pre, u) {
            let k = trader_at(pre, u);
            assert(0 <= k < pre.len() && pre[k].trader == u);
            assert(k != i);
            assert(post[k].trader == u);
            assert(has_trader(post, u));
            let k2 = trader_at(post, u);
            assert(0 <= k2 < post.len() && post[k2].trader == u);
            assert(k2 != i);
            assert(pre[k2].trader == u);
            assert(k2 == k) by {
                if k2 != k {
                    assert(pre[k].trader == pre[k2].trader);
                }
            }
        } else {
            assert(!has_trader(post, u)) by {
                if has_trader(post, u) {
                    let k2 = trader_at(post, u);
                    assert(post[k2].trader == u);
                    assert(k2 != i);
                    assert(pre[k2].trader == u);
                    assert(has_trader(pre, u));
                }
            }
        }
    }
    assert forall|u: u64| #[trigger] has_trader(post, u) <==> has_trader(pre, u) || u == t by {
        if has_trader(pre, u) {
            let k = trader_at(pre, u);
            if k == i {
                assert(post[i].trader == t);
                assert(u == t);
                assert(has_trader(post, u));
            } else {
                assert(post[k].trader == u);
                assert(has_trader(post, u));
            }
        }
        if u == t {
            assert(post[i].trader == t);
            assert(has_trader(post, u));
        }
        if has_trader(post, u) && u != t {
            let k2 = trader_at(post, u);
            assert(post[k2].trader == u);
            assert(k2 != i);
            assert(pre[k2].trader == u);
            assert(has_trader(pre, u));
        }
    }
}

/// After appending a row for a trader the table did not hold, the table
/// reads as the map extended by that one trader.
proof fn lemma_put_push(pre: Seq<TraderRecord>, post: Seq<TraderRecord>, rec: TraderRecord)
    requires
        unique_traders(pre),
        !has_trader(pre, rec.trader),
        post == pre.push(rec),
    ensures
        unique_traders(post),
        record_of(post, rec.trader) == rec,
        forall|u: u64| u != rec.trader ==> #[trigger] record_of(post, u) == record_of(pre, u),
        forall|u: u64| #[trigger] has_trader(post, u) <==> has_trader(pre, u) || u == rec.trader,
        post.len() == pre.len() + 1,
{
    let t = rec.trader;
    let n = pre.len() as int;
    assert forall|a: int, b: int| 0 <= a < b < post.len() implies (#[trigger] post[a]).trader != (
    #[trigger] post[b]).trader by {
        if b < n {
            assert(pre[a].trader != pre[b].trader);
        } else {
            assert(post[b] == rec);
            assert(post[a] == pre[a]);
            if pre[a].trader == t {
                assert(has_trader(pre, t));
            }
        }
    }
    assert(has_trader(post, t)) by {
        assert(post[n].trader == t);
    }
    let j = trader_at(post, t);
    assert(0 <= j < post.len() && post[j].trader == t);
    assert(j == n) by {
        if j != n {
            assert(pre[j].trader == t);
            assert(has_trader(pre, t));
        }
    }
    assert(record_of(post, t) == rec);
    assert forall|u: u64| u != t implies #[trigger] record_of(post, u) == record_of(pre, u) by {
        if has_trader(pre, u) {
            let k = trader_at(pre, u);
            assert(post[k].trader == u);
            assert(has_trader(post, u));
            let k2 = trader_at(post, u);
            assert(post[k2].trader == u);
            assert(k2 != n);
            assert(pre[k2].trader == u);
            assert(k2 == k) by {
                if k2 != k {
                    assert(pre[k].trader == pre[k2].trader);
                }
            }
        } else {
            assert(!has_trader(post, u)) by {
                if has_trader(post, u) {
                    let k2 = trader_at(post, u);
                    assert(post[k2].trader == u);
                    assert(k2 != n);
                    assert(pre[k2].trader == u);
                }
            }
        }
    }
    assert forall|u: u64| #[trigger] has_trader(post, u) <==> has_trader(pre, u) || u == t by {
        if has_trader(pre, u) {
            let k = trader_at(pre, u);
            assert(post[k].trader == u);
            assert(has_trader(post, u));
        }
        if u == t {
            assert(post[n].trader == t);
            assert(has_trader(post, u));
        }
        if has_trader(post, u) && u != t {
            let k2 = trader_at(post, u);
            assert(post[k2].trader == u);
            assert(k2 != n);
            assert(pre[k2].trader == u);
            assert(has_trader(pre, u));
        }
    }
}

} // verus!
