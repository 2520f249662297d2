use vstd::prelude::*;

use crate::cell::{ellipsis, truncated};

verus! {

/// Truncation keeps a text that fits, and otherwise keeps exactly `max / 6`
/// characters from its start, then `...`, then exactly `max - max / 6`
/// characters from its end.
pub proof fn lemma_truncation_shape(s: Seq<char>, max: u32)
    ensures
        truncated(s, None) == s,
        s.len() <= max ==> truncated(s, Some(max)) == s,
        s.len() > max ==> {
            let r = truncated(s, Some(max));
            let head = max / 6;
            let tail = max - max / 6;
            &&& r.len() == head + 3 + tail
            &&& r.subrange(0, head as int) == s.subrange(0, head as int)
            &&& r.subrange(head as int, head + 3) == ellipsis()
            &&& r.subrange(head + 3, r.len() as int) == s.subrange(s.len() - tail, s.len() as int)
        },
{
    if s.len() > max {
        let r = truncated(s, Some(max));
        let head = (max / 6) as int;
        let tail = max - max / 6;
        let h = s.subrange(0, head);
        let t = s.subrange(s.len() - tail, s.len() as int);
        assert(r == h + ellipsis() + t);
        assert(r.subrange(0, head) =~= h);
        assert(r.subrange(head, head + 3) =~= ellipsis());
        assert(r.subrange(head + 3, r.len() as int) =~= t);
    }
}

/// Data rows held by a grid after a driver offers it `offered` more rows,
/// offering each only while the grid accepts more (fewer than `limit` rows
/// held) and each accepted offer adding one row.
pub open spec fn rows_after_offers(held: nat, limit: nat, offered: nat) -> nat
    decreases offered,
{
    if offered == 0 || held >= limit {
        held
    } else {
        rows_after_offers(held + 1, limit, (offered - 1) as nat)
    }
}

/// A source of `k` rows read into an empty grid with limit `limit` leaves
/// `min(k, limit)` data rows.
pub proof fn lemma_row_limit(k: nat, limit: nat)
    ensures
        rows_after_offers(0, limit, k) == if k < limit {
            k
        } else {
            limit
        },
{
    lemma_rows_after_offers(0, limit, k);
}

proof fn lemma_rows_after_offers(held: nat, limit: nat, offered: nat)
    requires
        held <= limit,
    ensures
        rows_after_offers(held, limit, offered) == if held + offered < limit {
            held + offered
        } else {
            limit
        },
    decreases offered,
{
    if offered > 0 && held < limit {
        lemma_rows_after_offers(held + 1, limit, (offered - 1) as nat);
    }
}

} // verus!
