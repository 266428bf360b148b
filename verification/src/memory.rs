//! The in-memory cache tier: weight-bounded, TTL-based, first to answer.
//!
//! The tier bounds the *summed payload bytes* it holds — never the entry
//! count alone — and expires every entry a fixed time after its last
//! insertion (a write-time TTL, not a sliding one). Time enters as an
//! epoch-seconds argument, so the whole tier is a pure data structure:
//! what a `get` returns is a function of the entries, the clock value
//! handed in, and nothing else.

use vstd::prelude::*;
use crate::config::CacheConfig;
use crate::keys::{key_eq, CachedTile, KeyView, TileCacheKey};

verus! {

/// One stored entry: the payload plus the epoch second it was inserted at.
pub struct MemoryEntry {
    pub tile: CachedTile,
    pub inserted_at: u64,
}

/// The mathematical content of one entry: its bytes and insertion time.
pub ghost struct EntryModel {
    pub data: Seq<u8>,
    pub inserted_at: u64,
}

impl View for MemoryEntry {
    type V = EntryModel;

    open spec fn view(&self) -> EntryModel {
        EntryModel { data: self.tile.data@, inserted_at: self.inserted_at }
    }
}

/// First-match lookup of a key in an entry sequence.
pub open spec fn seq_lookup(s: Seq<(TileCacheKey, MemoryEntry)>, k: KeyView) -> Option<EntryModel>
    decreases s.len(),
{
    if s.len() == 0 {
        None
    } else if s[0].0@ == k {
        Some(s[0].1@)
    } else {
        seq_lookup(s.drop_first(), k)
    }
}

/// The summed payload sizes of an entry sequence.
pub open spec fn seq_weight(s: Seq<(TileCacheKey, MemoryEntry)>) -> nat
    decreases s.len(),
{
    if s.len() == 0 {
        0
    } else {
        s[0].1.tile.size as nat + seq_weight(s.drop_first())
    }
}

/// No two entries share a key.
pub open spec fn distinct_keys(s: Seq<(TileCacheKey, MemoryEntry)>) -> bool {
    forall|i: int, j: int| 0 <= i < j < s.len() ==> s[i].0@ != s[j].0@
}

/// Every entry's recorded size is its byte count.
pub open spec fn entries_wf(s: Seq<(TileCacheKey, MemoryEntry)>) -> bool {
    forall|i: int| 0 <= i < s.len() ==> (#[trigger] s[i]).1.tile.wf()
}

/// An entry inserted at `inserted_at` is still alive at `now` under a
/// write-time TTL of `ttl` seconds.
pub open spec fn fresh_at(e: EntryModel, ttl: u64, now: u64) -> bool {
    now < e.inserted_at + ttl
}

proof fn lemma_drop_first_props(s: Seq<(TileCacheKey, MemoryEntry)>)
    requires
        s.len() > 0,
    ensures
        distinct_keys(s) ==> distinct_keys(s.drop_first()),
        entries_wf(s) ==> entries_wf(s.drop_first()),
{
    if distinct_keys(s) {
        assert forall|i: int, j: int| 0 <= i < j < s.drop_first().len() implies s.drop_first()[i].0@
            != s.drop_first()[j].0@ by {
            assert(s[i + 1].0@ != s[j + 1].0@);
        }
    }
    if entries_wf(s) {
        assert forall|i: int| 0 <= i < s.drop_first().len() implies (#[trigger] s.drop_first()[i]).1.tile.wf() by {
            assert(s[i + 1].1.tile.wf());
        }
    }
}

/// A key found at an index is what lookup returns, when keys are distinct.
proof fn lemma_lookup_index(s: Seq<(TileCacheKey, MemoryEntry)>, i: int)
    requires
        distinct_keys(s),
        0 <= i < s.len(),
    ensures
        seq_lookup(s, s[i].0@) == Some(s[i].1@),
    decreases s.len(),
{
    if i == 0 {
    } else {
        assert(s[0].0@ != s[i].0@);
        lemma_drop_first_props(s);
        lemma_lookup_index(s.drop_first(), i - 1);
        assert(s.drop_first()[i - 1] == s[i]);
    }
}

/// A key at no index is not found.
proof fn lemma_lookup_absent(s: Seq<(TileCacheKey, MemoryEntry)>, k: KeyView)
    requires
        forall|i: int| 0 <= i < s.len() ==> (#[trigger] s[i]).0@ != k,
    ensures
        seq_lookup(s, k) is None,
    decreases s.len(),
{
    if s.len() > 0 {
        assert forall|i: int| 0 <= i < s.drop_first().len() implies (#[trigger] s.drop_first()[i]).0@ != k by {
            assert(s[i + 1].0@ != k);
        }
        lemma_lookup_absent(s.drop_first(), k);
    }
}

/// A key that is not found is at no index.
proof fn lemma_lookup_none_no_index(s: Seq<(TileCacheKey, MemoryEntry)>, k: KeyView)
    requires
        seq_lookup(s, k) is None,
    ensures
        forall|i: int| 0 <= i < s.len() ==> (#[trigger] s[i]).0@ != k,
    decreases s.len(),
{
    if s.len() > 0 {
        lemma_lookup_none_no_index(s.drop_first(), k);
        assert forall|i: int| 0 <= i < s.len() implies (#[trigger] s[i]).0@ != k by {
            if i > 0 {
                assert(s.drop_first()[i - 1].0@ != k);
            }
        }
    }
}

/// What removing the entry at index `i` does to lookups and to the weight.
proof fn lemma_remove(s: Seq<(TileCacheKey, MemoryEntry)>, i: int)
    requires
        distinct_keys(s),
        entries_wf(s),
        0 <= i < s.len(),
    ensures
        distinct_keys(s.remove(i)),
        entries_wf(s.remove(i)),
        seq_weight(s) == seq_weight(s.remove(i)) + s[i].1.tile.size,
        seq_lookup(s.remove(i), s[i].0@) is None,
        forall|k: KeyView| k != s[i].0@ ==> seq_lookup(s.remove(i), k) == seq_lookup(s, k),
    decreases s.len(),
{
    assert forall|a: int, b: int| 0 <= a < b < s.remove(i).len() implies s.remove(i)[a].0@
        != s.remove(i)[b].0@ by {
        let a0 = if a < i { a } else { a + 1 };
        let b0 = if b < i { b } else { b + 1 };
        assert(s.remove(i)[a] == s[a0] && s.remove(i)[b] == s[b0]);
    }
    assert forall|a: int| 0 <= a < s.remove(i).len() implies (#[trigger] s.remove(i)[a]).1.tile.wf() by {
        let a0 = if a < i { a } else { a + 1 };
        assert(s.remove(i)[a] == s[a0]);
        assert(s[a0].1.tile.wf());
    }
    if i == 0 {
        assert(s.remove(0) =~= s.drop_first());
        assert forall|j: int| 0 <= j < s.drop_first().len() implies (#[trigger] s.drop_first()[j]).0@
            != s[0].0@ by {
            assert(s[j + 1].0@ != s[0].0@);
        }
        lemma_lookup_absent(s.drop_first(), s[0].0@);
        assert forall|k: KeyView| k != s[0].0@ implies seq_lookup(s.remove(0), k) == seq_lookup(
            s,
            k,
        ) by {
            assert(seq_lookup(s, k) == seq_lookup(s.drop_first(), k));
        }
    } else {
        lemma_drop_first_props(s);
        lemma_remove(s.drop_first(), i - 1);
        assert(s.remove(i).drop_first() =~= s.drop_first().remove(i - 1));
        assert(s.drop_first()[i - 1] == s[i]);
        assert(s.remove(i)[0] == s[0]);
        assert(s[0].0@ != s[i].0@);
        assert(seq_weight(s) == seq_weight(s.remove(i)) + s[i].1.tile.size);
        assert(seq_lookup(s.remove(i), s[i].0@) is None);
        assert forall|k: KeyView| k != s[i].0@ implies seq_lookup(s.remove(i), k) == seq_lookup(
            s,
            k,
        ) by {
            if k == s[0].0@ {
                assert(seq_lookup(s.remove(i), k) == Some(s.remove(i)[0].1@));
                assert(seq_lookup(s, k) == Some(s[0].1@));
            } else {
                assert(seq_lookup(s.remove(i), k) == seq_lookup(s.remove(i).drop_first(), k));
                assert(seq_lookup(s.remove(i).drop_first(), k) == seq_lookup(
                    s.drop_first().remove(i - 1),
                    k,
                ));
                assert(seq_lookup(s.drop_first().remove(i - 1), k) == seq_lookup(
                    s.drop_first(),
                    k,
                ));
                assert(seq_lookup(s, k) == seq_lookup(s.drop_first(), k));
            }
        }
    }
}

/// What appending a fresh-keyed entry does to lookups and to the weight.
proof fn lemma_push(s: Seq<(TileCacheKey, MemoryEntry)>, e: (TileCacheKey, MemoryEntry))
    requires
        distinct_keys(s),
        entries_wf(s),
        e.1.tile.wf(),
        seq_lookup(s, e.0@) is None,
    ensures
        distinct_keys(s.push(e)),
        entries_wf(s.push(e)),
        seq_weight(s.push(e)) == seq_weight(s) + e.1.tile.size,
        seq_lookup(s.push(e), e.0@) == Some(e.1@),
        forall|k: KeyView| k != e.0@ ==> seq_lookup(s.push(e), k) == seq_lookup(s, k),
    decreases s.len(),
{
    lemma_lookup_none_no_index(s, e.0@);
    assert forall|a: int, b: int| 0 <= a < b < s.push(e).len() implies s.push(e)[a].0@
        != s.push(e)[b].0@ by {
        if b < s.len() {
            assert(s[a].0@ != s[b].0@);
        } else {
            assert(s.push(e)[b] == e && s.push(e)[a] == s[a]);
        }
    }
    assert forall|a: int| 0 <= a < s.push(e).len() implies (#[trigger] s.push(e)[a]).1.tile.wf() by {
        if a < s.len() {
            assert(s[a].1.tile.wf());
        } else {
            assert(s.push(e)[a] == e);
        }
    }
    if s.len() == 0 {
        assert(s.push(e)[0] == e);
        assert(s.push(e).drop_first() =~= Seq::<(TileCacheKey, MemoryEntry)>::empty());
        assert(seq_weight(s.push(e)) == e.1.tile.size + seq_weight(s.push(e).drop_first()));
        assert forall|k: KeyView| k != e.0@ implies seq_lookup(s.push(e), k) == seq_lookup(
            s,
            k,
        ) by {
            assert(seq_lookup(s.push(e), k) == seq_lookup(s.push(e).drop_first(), k));
        }
    } else {
        lemma_drop_first_props(s);
        assert(s.push(e).drop_first() =~= s.drop_first().push(e));
        assert(s.push(e)[0] == s[0]);
        assert(seq_lookup(s, e.0@) == seq_lookup(s.drop_first(), e.0@));
        lemma_push(s.drop_first(), e);
        assert(seq_weight(s.push(e)) == s[0].1.tile.size + seq_weight(s.drop_first().push(e)));
        assert(seq_weight(s) == s[0].1.tile.size + seq_weight(s.drop_first()));
        assert(seq_lookup(s.push(e), e.0@) == seq_lookup(s.drop_first().push(e), e.0@));
        assert forall|k: KeyView| k != e.0@ implies seq_lookup(s.push(e), k) == seq_lookup(
            s,
            k,
        ) by {
            if k == s[0].0@ {
                assert(seq_lookup(s.push(e), k) == Some(s.push(e)[0].1@));
                assert(seq_lookup(s, k) == Some(s[0].1@));
            } else {
                assert(seq_lookup(s.push(e), k) == seq_lookup(s.drop_first().push(e), k));
                assert(seq_lookup(s.drop_first().push(e), k) == seq_lookup(s.drop_first(), k));
                assert(seq_lookup(s, k) == seq_lookup(s.drop_first(), k));
            }
        }
    }
}

/// The in-memory tier. Entries are held in insertion order; eviction under
/// memory pressure removes the oldest-inserted entries first.
pub struct MemoryTier {
    entries: Vec<(TileCacheKey, MemoryEntry)>,
    total_bytes: u64,
    max_memory_bytes: u64,
    max_capacity: u64,
    ttl_seconds: u64,
}

impl MemoryTier {
    /// The entry stored under `k`, expired or not.
    pub closed spec fn lookup(self, k: KeyView) -> Option<EntryModel> {
        seq_lookup(self.entries@, k)
    }

    /// The summed payload bytes currently held.
    pub closed spec fn total_bytes_spec(self) -> nat {
        seq_weight(self.entries@)
    }

    /// How many entries are currently held.
    pub closed spec fn entry_count(self) -> nat {
        self.entries@.len()
    }

    /// The authoritative bound: summed payload bytes never exceed this.
    pub closed spec fn max_bytes(self) -> u64 {
        self.max_memory_bytes
    }

    /// The secondary, soft bound on the entry count.
    pub closed spec fn capacity(self) -> u64 {
        self.max_capacity
    }

    /// The write-time TTL applied to every entry.
    pub closed spec fn ttl(self) -> u64 {
        self.ttl_seconds
    }

    /// The tier's invariant: distinct keys, honest sizes, an accurate
    /// running total, and both configured bounds respected.
    pub closed spec fn wf(self) -> bool {
        &&& distinct_keys(self.entries@)
        &&& entries_wf(self.entries@)
        &&& self.total_bytes == seq_weight(self.entries@)
        &&& seq_weight(self.entries@) <= self.max_memory_bytes
        &&& self.entries@.len() <= self.max_capacity
    }

    /// The two tier bounds as configured never change across operations;
    /// this names that frame.
    pub open spec fn same_config(self, other: MemoryTier) -> bool {
        &&& self.max_bytes() == other.max_bytes()
        &&& self.capacity() == other.capacity()
        &&& self.ttl() == other.ttl()
    }

    /// What a reader sees under `k` at time `now`: the stored bytes if an
    /// entry is present and still within its TTL, absent otherwise.
    pub open spec fn visible(self, k: KeyView, now: u64) -> Option<Seq<u8>> {
        match self.lookup(k) {
            Some(e) => if fresh_at(e, self.ttl(), now) {
                Some(e.data)
            } else {
                None
            },
            None => None,
        }
    }

    /// A well-formed tier never holds entries whose summed size exceeds
    /// the configured memory bound, nor more entries than the soft cap.
    pub proof fn lemma_weight_bounded(self)
        requires
            self.wf(),
        ensures
            self.total_bytes_spec() <= self.max_bytes(),
            self.entry_count() <= self.capacity(),
    {
    }

    /// Build an empty tier from its configuration. The memory bound is
    /// given in MiB and must fit in bytes in 64 bits.
    pub fn new(config: &CacheConfig) -> (t: MemoryTier)
        requires
            config.max_memory_mb * 1024 * 1024 <= u64::MAX,
        ensures
            t.wf(),
            t.max_bytes() == config.max_memory_mb * 1024 * 1024,
            t.capacity() == config.max_capacity,
            t.ttl() == config.ttl_seconds,
            forall|k: KeyView| t.lookup(k) is None,
            t.total_bytes_spec() == 0,
            t.entry_count() == 0,
    {
        MemoryTier {
            entries: Vec::new(),
            total_bytes: 0,
            max_memory_bytes: config.max_memory_mb * 1024 * 1024,
            max_capacity: config.max_capacity,
            ttl_seconds: config.ttl_seconds,
        }
    }

    /// Look a tile up. Returns the payload exactly when an entry for the
    /// key is present and its TTL has not elapsed at `now`; a stale entry
    /// answers as a miss.
    pub fn get(&self, key: &TileCacheKey, now: u64) -> (r: Option<Vec<u8>>)
        requires
            self.wf(),
        ensures
            match r {
                Some(d) => self.visible(key@, now) == Some(d@),
                None => self.visible(key@, now) is None,
            },
    {
        let n = self.entries.len();
        let mut i: usize = 0;
        while i < n
            invariant
                n == self.entries@.len(),
                0 <= i <= n,
                self.wf(),
                forall|j: int| 0 <= j < i ==> (#[trigger] self.entries@[j]).0@ != key@,
            decreases n - i,
        {
            let pair = &self.entries[i];
            if key_eq(&pair.0, key) {
                proof {
                    lemma_lookup_index(self.entries@, i as int);
                }
                let e = &pair.1;
                if (now as u128) < (e.inserted_at as u128) + (self.ttl_seconds as u128) {
                    let d = e.tile.data.clone();
                    proof {
                        assert(d@ =~= e.tile.data@);
                    }
                    return Some(d);
                } else {
                    return None;
                }
            }
            i = i + 1;
        }
        proof {
            lemma_lookup_absent(self.entries@, key@);
        }
        None
    }

    /// Remove the entry under `key` if one is present; the bookkeeping
    /// total follows.
    fn remove_key(&mut self, key: &TileCacheKey)
        requires
            old(self).wf(),
        ensures
            final(self).wf(),
            old(self).same_config(*final(self)),
            final(self).lookup(key@) is None,
            forall|k2: KeyView| k2 != key@ ==> final(self).lookup(k2) == old(self).lookup(k2),
            final(self).total_bytes_spec() <= old(self).total_bytes_spec(),
            final(self).entry_count() <= old(self).entry_count(),
            old(self).lookup(key@) is None ==> *final(self) == *old(self),
    {
        let n = self.entries.len();
        let mut i: usize = 0;
        while i < n
            invariant
                n == self.entries@.len(),
                0 <= i <= n,
                self.wf(),
                *self == *old(self),
                forall|j: int| 0 <= j < i ==> (#[trigger] self.entries@[j]).0@ != key@,
            decreases n - i,
        {
            if key_eq(&self.entries[i].0, key) {
                proof {
                    lemma_lookup_index(self.entries@, i as int);
                    lemma_remove(self.entries@, i as int);
                }
                let pair = self.entries.remove(i);
                self.total_bytes = self.total_bytes - (pair.1.tile.size as u64);
                return;
            }
            i = i + 1;
        }
        proof {
            lemma_lookup_absent(self.entries@, key@);
        }
    }

    /// Insert or replace the tile under `key`, stamping its TTL clock to
    /// `now`. An entry whose payload alone exceeds the memory bound is
    /// rejected outright (the tier is never evicted to death for one
    /// oversized payload); otherwise the oldest-inserted entries are
    /// evicted until the newcomer fits under both bounds. Returns whether
    /// the payload was admitted.
    pub fn put(&mut self, key: TileCacheKey, data: Vec<u8>, now: u64) -> (admitted: bool)
        requires
            old(self).wf(),
        ensures
            put_effect(*old(self), *final(self), key@, data@, now, admitted),
    {
        let size64: u64 = data.len() as u64;
        if size64 > self.max_memory_bytes || self.max_capacity == 0 {
            return false;
        }
        self.remove_key(&key);
        let ghost s0 = *self;
        let ghost easy = old(self).lookup(key@) is None && old(self).total_bytes_spec() + data@.len()
            <= old(self).max_bytes() && old(self).entry_count() + 1 <= old(self).capacity();
        proof {
            if easy {
                assert(s0 == *old(self));
            }
        }
        while self.total_bytes > self.max_memory_bytes - size64 || self.entries.len() as u64
            >= self.max_capacity
            invariant
                self.wf(),
                s0.same_config(*self),
                size64 == data@.len(),
                size64 <= self.max_memory_bytes,
                self.max_capacity >= 1,
                self.lookup(key@) is None,
                forall|k2: KeyView| self.lookup(k2) is Some ==> self.lookup(k2) == s0.lookup(k2),
                easy ==> (*self == s0 && s0.total_bytes_spec() + size64 <= s0.max_bytes()
                    && s0.entry_count() + 1 <= s0.capacity()),
            decreases self.entries@.len(),
        {
            proof {
                // when the newcomer fits beside everything stored, the loop
                // guard cannot hold, so this body never runs in that case
                if easy {
                    assert(self.total_bytes <= self.max_memory_bytes - size64);
                    assert(self.entries@.len() < self.max_capacity);
                    assert(false);
                }
                if self.entries@.len() == 0 {
                    assert(self.total_bytes == 0);
                }
                lemma_remove(self.entries@, 0);
                lemma_lookup_none_no_index(self.entries@, key@);
            }
            let pair = self.entries.remove(0);
            self.total_bytes = self.total_bytes - (pair.1.tile.size as u64);
        }
        let tile = CachedTile::new(data);
        proof {
            lemma_push(self.entries@, (key, MemoryEntry { tile, inserted_at: now }));
        }
        let entry = MemoryEntry { tile, inserted_at: now };
        self.entries.push((key, entry));
        self.total_bytes = self.total_bytes + size64;
        true
    }

    /// Drop the entry under `key` immediately, TTL or not. Absence is not
    /// an error; every other entry is untouched.
    pub fn invalidate(&mut self, key: &TileCacheKey)
        requires
            old(self).wf(),
        ensures
            final(self).wf(),
            old(self).same_config(*final(self)),
            final(self).lookup(key@) is None,
            forall|k2: KeyView| k2 != key@ ==> final(self).lookup(k2) == old(self).lookup(k2),
    {
        self.remove_key(key);
    }
}

/// Everything `put` promises, in one place, relating the tier before
/// (`pre`) and after (`post`) the call.
pub open spec fn put_effect(
    pre: MemoryTier,
    post: MemoryTier,
    k: KeyView,
    data: Seq<u8>,
    now: u64,
    admitted: bool,
) -> bool {
    &&& post.wf()
    &&& pre.same_config(post)
    // a payload is admitted exactly when it can fit at all
    &&& admitted <==> (data.len() <= pre.max_bytes() && pre.capacity() >= 1)
    // the admitted payload is stored under its key, TTL clock reset to now
    &&& admitted ==> post.lookup(k) == Some(EntryModel { data, inserted_at: now })
    // a rejected payload changes nothing
    &&& !admitted ==> post == pre
    // no entry is ever invented or altered: whatever else survives is
    // exactly what was stored before
    &&& forall|k2: KeyView|
        k2 != k && (#[trigger] post.lookup(k2)) is Some ==> post.lookup(k2) == pre.lookup(k2)
    // eviction happens only under pressure: when the newcomer fits beside
    // the existing entries, all of them survive
    &&& (admitted && pre.lookup(k) is None && pre.total_bytes_spec() + data.len()
        <= pre.max_bytes() && pre.entry_count() + 1 <= pre.capacity()) ==> forall|k2: KeyView|
        k2 != k ==> post.lookup(k2) == pre.lookup(k2)
}

/// Law: a `put` followed immediately by a `get` of the same key returns
/// the payload just stored, provided the payload was admitted and the TTL
/// is not degenerate (at least one second).
pub proof fn lemma_put_then_get(
    pre: MemoryTier,
    post: MemoryTier,
    k: KeyView,
    data: Seq<u8>,
    now: u64,
)
    requires
        pre.wf(),
        pre.ttl() >= 1,
        put_effect(pre, post, k, data, now, true),
    ensures
        post.visible(k, now) == Some(data),
{
}

/// Law: once an entry's TTL has elapsed with no intervening insertion, a
/// `get` reports the key absent even though the entry may still be stored.
pub proof fn lemma_ttl_expiry(t: MemoryTier, k: KeyView, now: u64)
    requires
        t.wf(),
        t.lookup(k) matches Some(e) && now >= e.inserted_at + t.ttl(),
    ensures
        t.visible(k, now) is None,
{
}

} // verus!
