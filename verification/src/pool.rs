//! The connection pool: a host-keyed cache of reusable connection
//! handles with recency-based expiry and bounded per-host capacity.
//!
//! Connection handles are identified here by plain numeric ids; the
//! embedding application keeps the association between an id and the
//! live transport handle it stands for. All bookkeeping — pruning
//! stale entries, most-recently-used reuse, eviction of the oldest
//! entry at capacity — is verified against the contracts below.

use vstd::prelude::*;

verus! {

broadcast use vstd::seq_lib::group_seq_properties;

/// One cached connection: the handle's id and the time it was last
/// handed out, in milliseconds of the application's clock.
#[derive(Debug, Clone, Copy, PartialEq, Eq, Structural)]
pub struct PooledEntry {
    /// Identifier of the pooled connection handle.
    pub conn_id: u64,
    /// When the entry was last used, in clock milliseconds.
    pub last_used_ms: u64,
}

/// The pool's partition key: destination host and port.
#[derive(Debug, PartialEq, Eq)]
pub struct HostKey {
    /// Destination host name or address text.
    pub host: String,
    /// Destination port.
    pub port: u16,
}

impl View for HostKey {
    type V = (Seq<char>, u16);

    open spec fn view(&self) -> (Seq<char>, u16) {
        (self.host@, self.port)
    }
}

impl Clone for HostKey {
    fn clone(&self) -> (r: HostKey)
        ensures
            r@ == self@,
    {
        HostKey { host: self.host.clone(), port: self.port }
    }
}

/// One per-host sequence of pooled entries, ordered oldest first.
#[derive(Debug)]
struct Bucket {
    key: HostKey,
    entries: Vec<PooledEntry>,
}

/// Host-keyed cache of reusable connection ids.
#[derive(Debug)]
pub struct ConnectionPool {
    buckets: Vec<Bucket>,
}

/// Age of an entry last used at `last_used_ms` when the clock reads
/// `now_ms`; a clock that moved backwards counts as age zero.
pub open spec fn spec_age(now_ms: u64, last_used_ms: u64) -> int {
    if now_ms >= last_used_ms {
        now_ms - last_used_ms
    } else {
        0
    }
}

/// An entry young enough to be reused: strictly younger than the
/// keep-alive timeout.
pub open spec fn spec_live(e: PooledEntry, now_ms: u64, keep_alive_ms: u64) -> bool {
    spec_age(now_ms, e.last_used_ms) < keep_alive_ms
}

/// The subsequence of `s` that survives pruning at time `now_ms`:
/// exactly the live entries, in their original order.
pub open spec fn spec_prune(s: Seq<PooledEntry>, now_ms: u64, keep_alive_ms: u64) -> Seq<
    PooledEntry,
>
    decreases s.len(),
{
    if s.len() == 0 {
        s
    } else {
        let rest = spec_prune(s.drop_last(), now_ms, keep_alive_ms);
        if spec_live(s.last(), now_ms, keep_alive_ms) {
            rest.push(s.last())
        } else {
            rest
        }
    }
}

/// The ids held by a pool view, bucket by bucket, each bucket's
/// entries in order.
pub open spec fn spec_ids_of(s: Seq<((Seq<char>, u16), Seq<PooledEntry>)>) -> Seq<u64>
    decreases s.len(),
{
    if s.len() == 0 {
        Seq::empty()
    } else {
        spec_ids_of(s.drop_last()) + s.last().1.map_values(|e: PooledEntry| e.conn_id)
    }
}

/// Every pooled id is among the ids of the view.
pub proof fn lemma_ids_contains(s: Seq<((Seq<char>, u16), Seq<PooledEntry>)>, i: int, j: int)
    requires
        0 <= i < s.len(),
        0 <= j < s[i].1.len(),
    ensures
        spec_ids_of(s).contains(s[i].1[j].conn_id),
    decreases s.len(),
{
    let f = |e: PooledEntry| e.conn_id;
    let first = spec_ids_of(s.drop_last());
    let rest = s.last().1.map_values(f);
    if i == s.len() - 1 {
        assert(rest[j] == s[i].1[j].conn_id);
        assert(spec_ids_of(s)[first.len() + j] == s[i].1[j].conn_id);
    } else {
        lemma_ids_contains(s.drop_last(), i, j);
        let k = choose|k: int| 0 <= k < first.len() && first[k] == s.drop_last()[i].1[j].conn_id;
        assert(spec_ids_of(s)[k] == s[i].1[j].conn_id);
    }
}

/// Pruning never grows a sequence.
pub proof fn lemma_prune_len(s: Seq<PooledEntry>, now_ms: u64, keep_alive_ms: u64)
    ensures
        spec_prune(s, now_ms, keep_alive_ms).len() <= s.len(),
    decreases s.len(),
{
    if s.len() > 0 {
        lemma_prune_len(s.drop_last(), now_ms, keep_alive_ms);
    }
}

/// Every entry that survives pruning is live and was in the original
/// sequence.
pub proof fn lemma_prune_members(s: Seq<PooledEntry>, now_ms: u64, keep_alive_ms: u64, i: int)
    requires
        0 <= i < spec_prune(s, now_ms, keep_alive_ms).len(),
    ensures
        spec_live(spec_prune(s, now_ms, keep_alive_ms)[i], now_ms, keep_alive_ms),
        exists|j: int| 0 <= j < s.len() && s[j] == spec_prune(s, now_ms, keep_alive_ms)[i],
    decreases s.len(),
{
    let pruned = spec_prune(s, now_ms, keep_alive_ms);
    if s.len() > 0 {
        let rest = spec_prune(s.drop_last(), now_ms, keep_alive_ms);
        if spec_live(s.last(), now_ms, keep_alive_ms) && i == pruned.len() - 1 {
            assert(s[s.len() - 1] == pruned[i]);
        } else {
            lemma_prune_members(s.drop_last(), now_ms, keep_alive_ms, i);
            let j = choose|j: int| 0 <= j < s.drop_last().len() && s.drop_last()[j] == rest[i];
            assert(s[j] == rest[i]);
        }
    }
}

impl ConnectionPool {
    /// The pool as a sequence of host keys, each with its sequence of
    /// entries (oldest first).
    pub closed spec fn view(&self) -> Seq<((Seq<char>, u16), Seq<PooledEntry>)> {
        self.buckets@.map(|i: int, b: Bucket| (b.key@, b.entries@))
    }

    /// Host keys are pairwise distinct.
    pub open spec fn wf(self) -> bool {
        forall|i: int, j: int|
            0 <= i < j < self@.len() ==> (#[trigger] self@[i]).0 != (#[trigger] self@[j]).0
    }

    /// Whether a bucket for `k` exists.
    pub open spec fn spec_has_key(self, k: (Seq<char>, u16)) -> bool {
        exists|i: int| 0 <= i < self@.len() && (#[trigger] self@[i]).0 == k
    }

    /// The index of the bucket for `k`, when one exists.
    pub open spec fn spec_key_index(self, k: (Seq<char>, u16)) -> int {
        choose|i: int| 0 <= i < self@.len() && (#[trigger] self@[i]).0 == k
    }

    /// The entries cached for `k`, when a bucket for `k` exists.
    pub open spec fn spec_entries(self, k: (Seq<char>, u16)) -> Seq<PooledEntry> {
        self@[self.spec_key_index(k)].1
    }

    /// Every host's entry count, as the view sees it.
    pub open spec fn spec_stats(self) -> Seq<((Seq<char>, u16), nat)> {
        self@.map(|i: int, b: ((Seq<char>, u16), Seq<PooledEntry>)| (b.0, b.1.len()))
    }

    /// The capacity invariant: no host holds more than `max` entries.
    /// It holds of the empty pool, `acquire_reusable` preserves it for
    /// every bound, and `insert_connection` preserves it for the bound
    /// it is called with.
    pub open spec fn spec_within_capacity(self, max: int) -> bool {
        forall|i: int| 0 <= i < self@.len() ==> (#[trigger] self@[i]).1.len() <= max
    }

    /// Create an empty pool.
    pub fn new() -> (r: ConnectionPool)
        ensures
            r@ == Seq::<((Seq<char>, u16), Seq<PooledEntry>)>::empty(),
            r.wf(),
    {
        let r = ConnectionPool { buckets: Vec::new() };
        proof {
            assert(r@ =~= Seq::<((Seq<char>, u16), Seq<PooledEntry>)>::empty());
        }
        r
    }

    /// Index of the bucket holding `key`, if any.
    fn find_bucket(&self, key: &HostKey) -> (r: Option<usize>)
        ensures
            (match r {
                Some(i) => i < self@.len() && self@[i as int].0 == key@,
                None => forall|j: int| 0 <= j < self@.len() ==> (#[trigger] self@[j]).0 != key@,
            }),
    {
        let n = self.buckets.len();
        let mut i: usize = 0;
        while i < n
            invariant
                n == self@.len(),
                n == self.buckets@.len(),
                i <= n,
                forall|j: int| 0 <= j < i ==> (#[trigger] self@[j]).0 != key@,
            decreases n - i,
        {
            let b = &self.buckets[i];
            if b.key.host == key.host && b.key.port == key.port {
                return Some(i);
            }
            i = i + 1;
        }
        None
    }

    /// Prune the expired entries for `key` and hand back the id of the
    /// most recently used surviving entry, refreshed to `now_ms` and
    /// moved to the tail of the sequence. Returns `None` — and changes
    /// nothing beyond the pruning — when no live entry remains, or when
    /// the pool holds no bucket for `key` at all.
    pub fn acquire_reusable(&mut self, key: &HostKey, now_ms: u64, keep_alive_ms: u64) -> (r:
        Option<u64>)
        requires
            old(self).wf(),
        ensures
            final(self).wf(),
            final(self)@.len() == old(self)@.len(),
            forall|i: int|
                0 <= i < old(self)@.len() ==> (#[trigger] final(self)@[i]).0 == old(self)@[i].0,
            forall|i: int|
                0 <= i < old(self)@.len() && old(self)@[i].0 != key@ ==> (#[trigger] final(self)@[i]).1 == old(self)@[i].1,
            forall|i: int|
                0 <= i < old(self)@.len() ==> (#[trigger] final(self)@[i]).1.len() <= old(self)@[i].1.len(),
            forall|m: int|
                old(self).spec_within_capacity(m) ==> #[trigger] final(self).spec_within_capacity(m),
            !old(self).spec_has_key(key@) ==> r is None && final(self)@ == old(self)@,
            old(self).spec_has_key(key@) ==> ({
                let live = spec_prune(old(self).spec_entries(key@), now_ms, keep_alive_ms);
                let after = final(self).spec_entries(key@);
                &&& final(self).spec_has_key(key@)
                &&& final(self).spec_key_index(key@) == old(self).spec_key_index(key@)
                &&& (live.len() == 0 ==> r is None && after == live)
                &&& (live.len() > 0 ==> r == Some(live.last().conn_id) && after
                    == live.drop_last().push(
                    PooledEntry { conn_id: live.last().conn_id, last_used_ms: now_ms },
                ))
            }),
            (match r {
                Some(id) => old(self).spec_has_key(key@) && exists|j: int|
                    0 <= j < old(self).spec_entries(key@).len() && spec_live(
                        #[trigger] old(self).spec_entries(key@)[j],
                        now_ms,
                        keep_alive_ms,
                    ) && old(self).spec_entries(key@)[j].conn_id == id,
                None => true,
            }),
    {
        let ghost pre = *self;
        match self.find_bucket(key) {
            None => {
                proof {
                    assert(!pre.spec_has_key(key@));
                    assert(self@ =~= pre@);
                }
                None
            },
            Some(idx) => {
                proof {
                    lemma_key_index_is(pre, key@, idx as int);
                }
                let ghost original = pre.spec_entries(key@);
                let bucket = vstd::std_specs::vec::vec_index_mut(&mut self.buckets, idx);
                let n = bucket.entries.len();
                let mut live: Vec<PooledEntry> = Vec::new();
                let mut i: usize = 0;
                while i < n
                    invariant
                        n == bucket.entries@.len(),
                        bucket.entries@ == original,
                        i <= n,
                        live@ == spec_prune(original.subrange(0, i as int), now_ms, keep_alive_ms),
                    decreases n - i,
                {
                    let e = bucket.entries[i];
                    let ghost prefix = original.subrange(0, i as int);
                    let age = if now_ms >= e.last_used_ms {
                        now_ms - e.last_used_ms
                    } else {
                        0
                    };
                    if age < keep_alive_ms {
                        live.push(e);
                    }
                    proof {
                        let next = original.subrange(0, i as int + 1);
                        assert(next.drop_last() =~= prefix);
                        assert(next.last() == original[i as int]);
                    }
                    i = i + 1;
                }
                proof {
                    assert(original.subrange(0, n as int) =~= original);
                }
                let ghost pruned = live@;
                let r: Option<u64>;
                if live.len() > 0 {
                    let e = live.pop().unwrap();
                    live.push(PooledEntry { conn_id: e.conn_id, last_used_ms: now_ms });
                    r = Some(e.conn_id);
                    proof {
                        assert(pruned.drop_last() =~= live@.drop_last());
                        lemma_prune_members(original, now_ms, keep_alive_ms, pruned.len() - 1);
                        let j = choose|j: int|
                            0 <= j < original.len() && original[j] == pruned.last();
                        assert(spec_live(original[j], now_ms, keep_alive_ms));
                        assert(original[j].conn_id == e.conn_id);
                    }
                } else {
                    r = None;
                }
                bucket.entries = live;
                proof {
                    lemma_prune_len(original, now_ms, keep_alive_ms);
                    lemma_view_after_update(pre, *self, idx as int, key@);
                }
                r
            },
        }
    }

    /// Record a freshly created connection for `key`, evicting the
    /// oldest entry first when the bucket is already at capacity, so
    /// that a bucket within capacity before the call is within
    /// capacity after it.
    pub fn insert_connection(
        &mut self,
        key: &HostKey,
        conn_id: u64,
        now_ms: u64,
        max_per_host: usize,
    )
        requires
            old(self).wf(),
            max_per_host >= 1,
        ensures
            final(self).wf(),
            final(self).spec_has_key(key@),
            final(self).spec_entries(key@) == ({
                let prior = if old(self).spec_has_key(key@) {
                    old(self).spec_entries(key@)
                } else {
                    Seq::<PooledEntry>::empty()
                };
                let t = if prior.len() >= max_per_host {
                    prior.drop_first()
                } else {
                    prior
                };
                t.push(PooledEntry { conn_id, last_used_ms: now_ms })
            }),
            !old(self).spec_has_key(key@) ==> final(self)@ == old(self)@.push(
                (key@, seq![PooledEntry { conn_id, last_used_ms: now_ms }]),
            ),
            old(self).spec_has_key(key@) ==> ({
                &&& final(self)@.len() == old(self)@.len()
                &&& forall|i: int|
                    0 <= i < old(self)@.len() ==> (#[trigger] final(self)@[i]).0 == old(self)@[i].0
                &&& forall|i: int|
                    0 <= i < old(self)@.len() && old(self)@[i].0 != key@ ==> (#[trigger] final(self)@[i]).1 == old(self)@[i].1
                &&& final(self).spec_entries(key@) == ({
                    let s = old(self).spec_entries(key@);
                    let t = if s.len() >= max_per_host {
                        s.drop_first()
                    } else {
                        s
                    };
                    t.push(PooledEntry { conn_id, last_used_ms: now_ms })
                })
            }),
            old(self).spec_within_capacity(max_per_host as int) ==> final(self).spec_within_capacity(max_per_host as int),
    {
        let ghost pre = *self;
        match self.find_bucket(key) {
            None => {
                proof {
                    assert(!pre.spec_has_key(key@));
                }
                let mut entries: Vec<PooledEntry> = Vec::new();
                entries.push(PooledEntry { conn_id, last_used_ms: now_ms });
                let k = key.clone();
                self.buckets.push(Bucket { key: k, entries });
                proof {
                    assert(self@ =~= pre@.push(
                        (key@, seq![PooledEntry { conn_id, last_used_ms: now_ms }]),
                    ));
                    assert forall|i: int, j: int|
                        0 <= i < j < self@.len() implies (#[trigger] self@[i]).0 != (
                    #[trigger] self@[j]).0 by {
                        if j == self@.len() - 1 {
                            assert(!pre.spec_has_key(key@));
                            assert(pre@[i].0 != key@);
                        }
                    }
                    lemma_key_index_is(*self, key@, pre@.len() as int);
                    assert(self.spec_entries(key@) =~= Seq::<PooledEntry>::empty().push(
                        PooledEntry { conn_id, last_used_ms: now_ms },
                    ));
                }
            },
            Some(idx) => {
                proof {
                    lemma_key_index_is(pre, key@, idx as int);
                }
                let ghost original = pre.spec_entries(key@);
                let bucket = vstd::std_specs::vec::vec_index_mut(&mut self.buckets, idx);
                if bucket.entries.len() >= max_per_host {
                    bucket.entries.remove(0);
                    proof {
                        assert(bucket.entries@ =~= original.drop_first());
                    }
                }
                bucket.entries.push(PooledEntry { conn_id, last_used_ms: now_ms });
                proof {
                    lemma_view_after_update(pre, *self, idx as int, key@);
                }
            },
        }
    }

    /// Snapshot of the pool: each host key with its entry count. No
    /// side effects.
    pub fn stats(&self) -> (r: Vec<(HostKey, usize)>)
        ensures
            r@.len() == self@.len(),
            forall|i: int|
                0 <= i < self@.len() ==> (#[trigger] r@[i]).0@ == self@[i].0 && r@[i].1
                    == self@[i].1.len(),
            r@.map_values(|p: (HostKey, usize)| (p.0@, p.1 as nat)) == self.spec_stats(),
    {
        let n = self.buckets.len();
        let mut r: Vec<(HostKey, usize)> = Vec::new();
        let mut i: usize = 0;
        while i < n
            invariant
                n == self@.len(),
                n == self.buckets@.len(),
                i <= n,
                r@.len() == i,
                forall|j: int|
                    0 <= j < i ==> (#[trigger] r@[j]).0@ == self@[j].0 && r@[j].1
                        == self@[j].1.len(),
            decreases n - i,
        {
            let b = &self.buckets[i];
            r.push((b.key.clone(), b.entries.len()));
            i = i + 1;
        }
        proof {
            assert(r@.map_values(|p: (HostKey, usize)| (p.0@, p.1 as nat)) =~= self.spec_stats());
        }
        r
    }

    /// The ids of every pooled connection, over all hosts, in pool
    /// order: a caller keeping per-id state can drop what the pool no
    /// longer references.
    pub fn connection_ids(&self) -> (r: Vec<u64>)
        ensures
            r@ == spec_ids_of(self@),
            forall|i: int, j: int|
                0 <= i < self@.len() && 0 <= j < self@[i].1.len() ==> r@.contains(
                    #[trigger] self@[i].1[j].conn_id,
                ),
    {
        let n = self.buckets.len();
        let mut r: Vec<u64> = Vec::new();
        let mut i: usize = 0;
        while i < n
            invariant
                n == self@.len(),
                n == self.buckets@.len(),
                i <= n,
                r@ == spec_ids_of(self@.subrange(0, i as int)),
            decreases n - i,
        {
            let ghost outer_prefix = self@.subrange(0, i as int);
            let bucket = &self.buckets[i];
            let m = bucket.entries.len();
            let mut j: usize = 0;
            while j < m
                invariant
                    i < n,
                    n == self@.len(),
                    n == self.buckets@.len(),
                    m == bucket.entries@.len(),
                    bucket.entries@ == self@[i as int].1,
                    outer_prefix == self@.subrange(0, i as int),
                    j <= m,
                    r@ == spec_ids_of(outer_prefix) + self@[i as int].1.subrange(
                        0,
                        j as int,
                    ).map_values(|e: PooledEntry| e.conn_id),
                decreases m - j,
            {
                let id = bucket.entries[j].conn_id;
                r.push(id);
                proof {
                    let entries = self@[i as int].1;
                    let f = |e: PooledEntry| e.conn_id;
                    assert(entries.subrange(0, j as int + 1).drop_last() =~= entries.subrange(
                        0,
                        j as int,
                    ));
                    assert(entries.subrange(0, j as int + 1).map_values(f) =~= entries.subrange(
                        0,
                        j as int,
                    ).map_values(f).push(f(entries[j as int])));
                }
                j = j + 1;
            }
            proof {
                let next = self@.subrange(0, i as int + 1);
                assert(next.drop_last() =~= outer_prefix);
                assert(next.last() == self@[i as int]);
                assert(self@[i as int].1.subrange(0, m as int) =~= self@[i as int].1);
            }
            i = i + 1;
        }
        proof {
            assert(self@.subrange(0, n as int) =~= self@);
            assert forall|i: int, j: int|
                0 <= i < self@.len() && 0 <= j < self@[i].1.len() implies r@.contains(
                #[trigger] self@[i].1[j].conn_id) by {
                lemma_ids_contains(self@, i, j);
            }
        }
        r
    }

    /// Drop every entry from the pool. Handles already lent out are
    /// unaffected; they simply no longer belong to the pool.
    pub fn clear(&mut self)
        ensures
            final(self)@ == Seq::<((Seq<char>, u16), Seq<PooledEntry>)>::empty(),
            final(self).wf(),
    {
        self.buckets.clear();
        proof {
            assert(self@ =~= Seq::<((Seq<char>, u16), Seq<PooledEntry>)>::empty());
        }
    }
}

/// With distinct keys, a bucket whose key is `k` is the bucket that
/// `spec_key_index` picks.
proof fn lemma_key_index_is(p: ConnectionPool, k: (Seq<char>, u16), idx: int)
    requires
        p.wf(),
        0 <= idx < p@.len(),
        p@[idx].0 == k,
    ensures
        p.spec_has_key(k),
        p.spec_key_index(k) == idx,
        p.spec_entries(k) == p@[idx].1,
{
    assert(p.spec_has_key(k));
    let j = p.spec_key_index(k);
    assert(0 <= j < p@.len() && p@[j].0 == k);
    if j < idx {
        assert(p@[j].0 != p@[idx].0);
        assert(false);
    }
    if idx < j {
        assert(p@[idx].0 != p@[j].0);
        assert(false);
    }
}

/// After replacing only the entries of the bucket at `idx` (whose key
/// is `k`), the pool still has distinct keys, every key is unchanged,
/// and `spec_entries` of any other key is unchanged.
proof fn lemma_view_after_update(pre: ConnectionPool, post: ConnectionPool, idx: int, k: (
    Seq<char>,
    u16,
))
    requires
        pre.wf(),
        0 <= idx < pre@.len(),
        pre@[idx].0 == k,
        post@.len() == pre@.len(),
        post@[idx].0 == k,
        forall|i: int| 0 <= i < pre@.len() && i != idx ==> #[trigger] post@[i] == pre@[i],
    ensures
        post.wf(),
        forall|i: int| 0 <= i < pre@.len() ==> (#[trigger] post@[i]).0 == pre@[i].0,
        forall|i: int|
            0 <= i < pre@.len() && pre@[i].0 != k ==> (#[trigger] post@[i]).1 == pre@[i].1,
        post.spec_has_key(k),
        post.spec_key_index(k) == idx,
        post.spec_entries(k) == post@[idx].1,
{
    assert forall|i: int| 0 <= i < pre@.len() implies (#[trigger] post@[i]).0 == pre@[i].0 by {
        if i != idx {
            assert(post@[i] == pre@[i]);
        }
    }
    lemma_key_index_is(post, k, idx);
}

/// A cleared pool reports an empty mapping: with no buckets there are
/// no per-host counts at all.
pub proof fn lemma_cleared_pool_has_empty_stats(p: ConnectionPool)
    requires
        p@.len() == 0,
    ensures
        p.spec_stats() =~= Seq::<((Seq<char>, u16), nat)>::empty(),
{
}

} // verus!
