//! The retention engine: which entries a prune evicts, and which of a run
//! of recent images are duplicates.

use vstd::prelude::*;

use crate::clipboard::opt_view;
use crate::model::Clip;

verus! {

/// Identities of the unpinned entries, in the order given.
pub open spec fn unpinned_ids(clips: Seq<Clip>) -> Seq<i64>
    decreases clips.len(),
{
    if clips.len() == 0 {
        Seq::empty()
    } else if clips.last().pinned {
        unpinned_ids(clips.drop_last())
    } else {
        unpinned_ids(clips.drop_last()).push(clips.last().id)
    }
}

/// The history limit a prune applies: never below one.
pub open spec fn effective_limit(limit: i64) -> int {
    if limit < 1 {
        1
    } else {
        limit as int
    }
}

/// How many entries a prune should remove.
pub open spec fn excess(clips: Seq<Clip>, limit: i64) -> int {
    clips.len() - effective_limit(limit)
}

/// Identities a prune evicts from entries listed oldest first: as many of
/// the oldest unpinned entries as the count exceeds the limit, or all
/// unpinned ones when there are fewer.
pub open spec fn prune_victims(clips: Seq<Clip>, limit: i64) -> Seq<i64> {
    let over = excess(clips, limit);
    let u = unpinned_ids(clips);
    if over <= 0 {
        Seq::empty()
    } else if over < u.len() {
        u.take(over)
    } else {
        u
    }
}

proof fn lemma_unpinned_prefix(clips: Seq<Clip>, i: int)
    requires
        0 <= i <= clips.len(),
    ensures
        unpinned_ids(clips.take(i)).len() <= unpinned_ids(clips).len(),
        unpinned_ids(clips).take(unpinned_ids(clips.take(i)).len() as int) == unpinned_ids(
            clips.take(i),
        ),
    decreases clips.len(),
{
    if i == clips.len() {
        assert(clips.take(i) =~= clips);
        assert(unpinned_ids(clips).take(unpinned_ids(clips).len() as int) =~= unpinned_ids(clips));
    } else {
        let d = clips.drop_last();
        assert(clips.take(i) =~= d.take(i));
        lemma_unpinned_prefix(d, i);
        let p = unpinned_ids(d.take(i));
        if !clips.last().pinned {
            assert(unpinned_ids(clips).take(p.len() as int) =~= unpinned_ids(d).take(p.len() as int));
        }
    }
}

proof fn lemma_unpinned_from_unpinned(clips: Seq<Clip>, x: i64)
    requires
        unpinned_ids(clips).contains(x),
    ensures
        exists|k: int| 0 <= k < clips.len() && !clips[k].pinned && clips[k].id == x,
    decreases clips.len(),
{
    let d = clips.drop_last();
    if clips.last().pinned || unpinned_ids(d).contains(x) {
        if !clips.last().pinned {
            assert(unpinned_ids(d).contains(x));
        }
        lemma_unpinned_from_unpinned(d, x);
        let k = choose|k: int| 0 <= k < d.len() && !d[k].pinned && d[k].id == x;
        assert(clips[k] == d[k]);
    } else {
        let u = unpinned_ids(clips);
        let j = choose|j: int| 0 <= j < u.len() && u[j] == x;
        if j < u.len() - 1 {
            assert(unpinned_ids(d)[j] == x);
        }
        assert(clips[clips.len() - 1] == clips.last());
    }
}

proof fn lemma_all_unpinned(clips: Seq<Clip>)
    requires
        forall|k: int| 0 <= k < clips.len() ==> !#[trigger] clips[k].pinned,
    ensures
        unpinned_ids(clips) == clips.map_values(|c: Clip| c.id),
    decreases clips.len(),
{
    if clips.len() > 0 {
        let d = clips.drop_last();
        assert forall|k: int| 0 <= k < d.len() implies !#[trigger] d[k].pinned by {
            assert(d[k] == clips[k]);
        }
        lemma_all_unpinned(d);
        assert(clips.map_values(|c: Clip| c.id) =~= d.map_values(|c: Clip| c.id).push(
            clips.last().id,
        ));
    }
}

/// Picks the identities that a prune to `history_limit` evicts, from all
/// entries listed oldest first (by creation time, then identity).
pub fn select_prune_ids(clips: &Vec<Clip>, history_limit: i64) -> (r: Vec<i64>)
    ensures
        r@ == prune_victims(clips@, history_limit),
{
    let limit: i64 = if history_limit < 1 { 1 } else { history_limit };
    if clips.len() as i128 <= limit as i128 {
        return Vec::new();
    }
    let over: usize = (clips.len() as i128 - limit as i128) as usize;
    let mut r: Vec<i64> = Vec::new();
    let mut i: usize = 0;
    while i < clips.len() && r.len() < over
        invariant
            i <= clips@.len(),
            r@.len() <= over,
            over == excess(clips@, history_limit),
            r@ == unpinned_ids(clips@.take(i as int)),
        decreases clips@.len() - i,
    {
        let ghost before = clips@.take(i as int);
        assert(clips@.take(i as int + 1).drop_last() =~= before);
        if !clips[i].pinned {
            r.push(clips[i].id);
        }
        i = i + 1;
    }
    proof {
        lemma_unpinned_prefix(clips@, i as int);
        if i == clips.len() {
            assert(clips@.take(i as int) =~= clips@);
        }
    }
    r
}

/// A prune of entries that are all unpinned, to a limit of at least one
/// below their count, evicts exactly the oldest count-minus-limit of them.
pub proof fn lemma_prune_evicts_oldest_unpinned(clips: Seq<Clip>, limit: i64)
    requires
        forall|k: int| 0 <= k < clips.len() ==> !#[trigger] clips[k].pinned,
        1 <= limit < clips.len(),
    ensures
        prune_victims(clips, limit).len() == clips.len() - limit,
        prune_victims(clips, limit) == clips.map_values(|c: Clip| c.id).take(
            clips.len() - limit,
        ),
{
    lemma_all_unpinned(clips);
}

/// With the limit below the number of pinned entries, a prune evicts every
/// unpinned entry and nothing else.
pub proof fn lemma_prune_below_pinned_count(clips: Seq<Clip>, limit: i64)
    requires
        1 <= limit,
        limit + unpinned_ids(clips).len() < clips.len(),
    ensures
        prune_victims(clips, limit) == unpinned_ids(clips),
{
}

/// A prune never evicts a pinned entry, whatever the limit: when identities
/// are distinct, a pinned entry's identity is never among the evicted.
pub proof fn lemma_prune_spares_pinned(clips: Seq<Clip>, limit: i64, k: int)
    requires
        0 <= k < clips.len(),
        clips[k].pinned,
        forall|a: int, b: int|
            0 <= a < clips.len() && 0 <= b < clips.len() && a != b ==> #[trigger] clips[a].id
                != #[trigger] clips[b].id,
    ensures
        !prune_victims(clips, limit).contains(clips[k].id),
{
    let v = prune_victims(clips, limit);
    let u = unpinned_ids(clips);
    if v.contains(clips[k].id) {
        let j = choose|j: int| 0 <= j < v.len() && v[j] == clips[k].id;
        assert(u[j] == v[j]);
        assert(u.contains(clips[k].id));
        lemma_unpinned_from_unpinned(clips, clips[k].id);
    }
}

/// The last canonical hash among the first `n` entries, skipping entries
/// without one.
pub open spec fn last_hash_before(entries: Seq<(i64, Option<String>)>, n: int) -> Option<Seq<char>>
    decreases n,
{
    if n <= 0 {
        None
    } else if entries[n - 1].1 is Some {
        opt_view(entries[n - 1].1)
    } else {
        last_hash_before(entries, n - 1)
    }
}

/// Identities, among the first `n` entries listed most recent first, of
/// those whose canonical hash equals that of the nearest entry above them
/// that has one.
pub open spec fn adjacent_duplicates(entries: Seq<(i64, Option<String>)>, n: int) -> Seq<i64>
    decreases n,
{
    if n <= 0 {
        Seq::empty()
    } else {
        let earlier = adjacent_duplicates(entries, n - 1);
        if entries[n - 1].1 is Some && last_hash_before(entries, n - 1) == opt_view(
            entries[n - 1].1,
        ) {
            earlier.push(entries[n - 1].0)
        } else {
            earlier
        }
    }
}

/// Picks, from image entries listed most recent first with their canonical
/// hashes (none where it could not be computed), the entries that repeat the
/// image just above them; the most recent of each run stays.
pub fn select_adjacent_duplicates(entries: &Vec<(i64, Option<String>)>) -> (r: Vec<i64>)
    ensures
        r@ == adjacent_duplicates(entries@, entries@.len() as int),
{
    let mut last: Option<String> = None;
    let mut r: Vec<i64> = Vec::new();
    let mut i: usize = 0;
    while i < entries.len()
        invariant
            i <= entries@.len(),
            opt_view(last) == last_hash_before(entries@, i as int),
            r@ == adjacent_duplicates(entries@, i as int),
        decreases entries@.len() - i,
    {
        match &entries[i].1 {
            Some(h) => {
                let repeat = match &last {
                    Some(prev) => crate::text::same_text(prev.as_str(), h.as_str()),
                    None => false,
                };
                if repeat {
                    r.push(entries[i].0);
                } else {
                    last = Some(h.clone());
                }
            },
            None => {},
        }
        i = i + 1;
    }
    r
}

} // verus!
