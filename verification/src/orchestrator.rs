//! Cache-aside orchestration across the two tiers and the tile generator.
//!
//! A fetch walks memory tier, then object store, then generator, populating
//! the tiers on the way back up. The store and the generator live outside
//! this crate, so the walk is a step machine: `fetch_begin` answers from
//! memory or says which object to read; `fetch_after_persistent` resolves
//! what the store returned (promoting a hit into memory, or expiring the
//! object); `fetch_after_generate` admits the generated payload into memory
//! and plans the durable write. A generator failure is surfaced by the
//! embedding program and never reported back here, so a failed generation
//! is never cached. Invalidation clears the memory tier at once and plans
//! the object deletion.

use vstd::prelude::*;
use crate::config::{CacheConfig, S3Config};
use crate::keys::{KeyView, TileCacheKey};
use crate::memory::{put_effect, MemoryTier};
use crate::persistent::{
    s3_read_decision, spec_read_decision, spec_s3_key, spec_udec, PersistentTier, ReadDecision,
    S3PutPlan,
};

verus! {

/// The key view a request for `(table, z, x, y)` resolves to.
pub open spec fn request_key(table_name: Seq<char>, z: u32, x: u32, y: u32) -> KeyView {
    KeyView { table_name, z, x, y }
}

/// What `fetch_begin` asks of its caller next.
pub enum FetchStep {
    /// The memory tier answered; the request is done.
    Hit(Vec<u8>),
    /// Memory missed: read this object key from the store, then report the
    /// outcome to `fetch_after_persistent`.
    NeedPersistent(String),
    /// Memory missed and the store tier is disabled: invoke the generator,
    /// then report its payload to `fetch_after_generate`.
    NeedGenerate,
}

/// What the object store returned for a read, as the embedding program
/// reports it.
pub enum PersistentReadResult {
    /// The object exists: its bytes, and its `expires_at` metadata value
    /// if the object carries one.
    Found(Vec<u8>, Option<String>),
    /// No such object.
    Absent,
    /// The read failed transiently. The failure is the caller's to log;
    /// here it falls through to the generator like a miss.
    Failed,
}

/// What `fetch_after_persistent` asks of its caller next.
pub enum AfterPersistent {
    /// The stored tile is still live; it has been promoted into the
    /// memory tier. Deliver these bytes.
    Deliver(Vec<u8>),
    /// The stored object's deadline has passed: delete this object key
    /// (lazy expiry), then invoke the generator as for a miss.
    DeleteThenGenerate(String),
    /// Plain miss: invoke the generator.
    Generate,
}

/// Both tiers as one service: the explicitly constructed value that every
/// request handler shares, in place of ambient global cache state.
pub struct CacheService {
    memory: MemoryTier,
    persistent: PersistentTier,
}

impl CacheService {
    /// The in-memory tier's state.
    pub closed spec fn mem(self) -> MemoryTier {
        self.memory
    }

    /// The durable tier's state.
    pub closed spec fn pers(self) -> PersistentTier {
        self.persistent
    }

    /// The service invariant: the memory tier is well formed.
    pub open spec fn wf(self) -> bool {
        self.mem().wf()
    }

    /// Operations never touch configuration: both tiers keep their bounds,
    /// TTLs, and store addressing.
    pub open spec fn same_shape(self, other: CacheService) -> bool {
        &&& self.mem().same_config(other.mem())
        &&& self.pers() == other.pers()
    }

    /// Build the service. `s3_enabled` reports whether the embedding
    /// program could construct an object-store client (credentials
    /// present); without one the durable tier degrades to a permanent
    /// miss. The memory bound in MiB must fit in bytes in 64 bits.
    pub fn new(cache_config: &CacheConfig, s3_config: S3Config, s3_enabled: bool) -> (s:
        CacheService)
        requires
            cache_config.max_memory_mb * 1024 * 1024 <= u64::MAX,
        ensures
            s.wf(),
            s.mem().max_bytes() == cache_config.max_memory_mb * 1024 * 1024,
            s.mem().capacity() == cache_config.max_capacity,
            s.mem().ttl() == cache_config.ttl_seconds,
            forall|k: KeyView| s.mem().lookup(k) is None,
            s.pers().is_enabled() == s3_enabled,
            s.pers().prefix() == s3_config.prefix@,
            s.pers().bucket() == s3_config.bucket@,
            s.pers().ttl() == s3_config.ttl_seconds,
    {
        CacheService {
            memory: MemoryTier::new(cache_config),
            persistent: PersistentTier::new(s3_config, s3_enabled),
        }
    }

    /// The durable tier, for planning reads and writes directly.
    pub fn persistent_tier(&self) -> (t: &PersistentTier)
        ensures
            *t == self.pers(),
    {
        &self.persistent
    }

    /// Answer from the memory tier alone: the payload stored under the
    /// key, provided its TTL has not elapsed at `now`.
    pub fn get_from_memory_cache(&self, table_name: &str, z: u32, x: u32, y: u32, now: u64) -> (r:
        Option<Vec<u8>>)
        requires
            self.wf(),
        ensures
            match r {
                Some(d) => self.mem().visible(request_key(table_name@, z, x, y), now) == Some(d@),
                None => self.mem().visible(request_key(table_name@, z, x, y), now) is None,
            },
    {
        let key = TileCacheKey::new(table_name, z, x, y);
        self.memory.get(&key, now)
    }

    /// Store into the memory tier alone, resetting the key's TTL clock to
    /// `now`. Returns whether the payload was admitted.
    pub fn put_to_memory_cache(
        &mut self,
        table_name: &str,
        z: u32,
        x: u32,
        y: u32,
        data: Vec<u8>,
        now: u64,
    ) -> (admitted: bool)
        requires
            old(self).wf(),
        ensures
            final(self).wf(),
            old(self).same_shape(*final(self)),
            put_effect(
                old(self).mem(),
                final(self).mem(),
                request_key(table_name@, z, x, y),
                data@,
                now,
                admitted,
            ),
    {
        let key = TileCacheKey::new(table_name, z, x, y);
        self.memory.put(key, data, now)
    }

    /// Start a cache-aside fetch: answer from memory, or say what to do
    /// next. Memory is authoritative while warm — a hit ends the walk with
    /// no store read and no generator call.
    pub fn fetch_begin(&self, table_name: &str, z: u32, x: u32, y: u32, now: u64) -> (r: FetchStep)
        requires
            self.wf(),
        ensures
            ({
                let k = request_key(table_name@, z, x, y);
                match r {
                    FetchStep::Hit(d) => self.mem().visible(k, now) == Some(d@),
                    FetchStep::NeedPersistent(s3_key) => self.mem().visible(k, now) is None
                        && self.pers().is_enabled() && s3_key@ == spec_s3_key(
                        self.pers().prefix(),
                        table_name@,
                        z,
                        x,
                        y,
                    ),
                    FetchStep::NeedGenerate => self.mem().visible(k, now) is None
                        && !self.pers().is_enabled(),
                }
            }),
    {
        match self.get_from_memory_cache(table_name, z, x, y, now) {
            Some(d) => FetchStep::Hit(d),
            None => match self.persistent.read_plan(table_name, z, x, y) {
                Some(s3_key) => FetchStep::NeedPersistent(s3_key),
                None => FetchStep::NeedGenerate,
            },
        }
    }

    /// Resolve what the object store returned. A live object is promoted
    /// into the memory tier and delivered; an object past its deadline is
    /// deleted by the caller and the walk falls through to the generator,
    /// as it does on a miss or a transient store failure.
    pub fn fetch_after_persistent(
        &mut self,
        table_name: &str,
        z: u32,
        x: u32,
        y: u32,
        now: u64,
        result: PersistentReadResult,
    ) -> (r: AfterPersistent)
        requires
            old(self).wf(),
        ensures
            final(self).wf(),
            old(self).same_shape(*final(self)),
            ({
                let k = request_key(table_name@, z, x, y);
                match result {
                    PersistentReadResult::Found(data, meta) => {
                        if spec_read_decision(opt_string_view_owned(meta), now)
                            == ReadDecision::Deliver {
                            &&& (r matches AfterPersistent::Deliver(d) && d@ == data@)
                            &&& put_effect(
                                old(self).mem(),
                                final(self).mem(),
                                k,
                                data@,
                                now,
                                data@.len() <= old(self).mem().max_bytes() && old(
                                    self,
                                ).mem().capacity() >= 1,
                            )
                        } else {
                            &&& (r matches AfterPersistent::DeleteThenGenerate(s3_key)
                                && s3_key@ == spec_s3_key(
                                old(self).pers().prefix(),
                                table_name@,
                                z,
                                x,
                                y,
                            ))
                            &&& *final(self) == *old(self)
                        }
                    },
                    PersistentReadResult::Absent => r is Generate && *final(self) == *old(self),
                    PersistentReadResult::Failed => r is Generate && *final(self) == *old(self),
                }
            }),
    {
        match result {
            PersistentReadResult::Found(data, meta) => {
                match s3_read_decision(meta.as_ref(), now) {
                    ReadDecision::Deliver => {
                        let key = TileCacheKey::new(table_name, z, x, y);
                        let promoted = data.clone();
                        proof {
                            assert(promoted@ =~= data@);
                        }
                        self.memory.put(key, promoted, now);
                        AfterPersistent::Deliver(data)
                    },
                    ReadDecision::DeleteExpired => {
                        let s3_key = crate::persistent::generate_s3_key(
                            self.persistent_config(),
                            table_name,
                            z,
                            x,
                            y,
                        );
                        AfterPersistent::DeleteThenGenerate(s3_key)
                    },
                }
            },
            PersistentReadResult::Absent => AfterPersistent::Generate,
            PersistentReadResult::Failed => AfterPersistent::Generate,
        }
    }

    /// Admit a freshly generated payload (an empty one included — "no
    /// features in this tile" is a valid, cacheable answer) into the
    /// memory tier, and plan the durable write: key, deadline `now + ttl`,
    /// and metadata. The caller uploads best-effort; its failure loses
    /// only durability, never the response. A generator failure is never
    /// reported here, so it is never cached.
    pub fn fetch_after_generate(
        &mut self,
        table_name: &str,
        z: u32,
        x: u32,
        y: u32,
        now: u64,
        data: Vec<u8>,
    ) -> (r: Option<S3PutPlan>)
        requires
            old(self).wf(),
            now + old(self).pers().ttl() <= u64::MAX,
        ensures
            final(self).wf(),
            old(self).same_shape(*final(self)),
            put_effect(
                old(self).mem(),
                final(self).mem(),
                request_key(table_name@, z, x, y),
                data@,
                now,
                data@.len() <= old(self).mem().max_bytes() && old(self).mem().capacity() >= 1,
            ),
            old(self).pers().is_enabled() ==> (r matches Some(p) && p.key@ == spec_s3_key(
                old(self).pers().prefix(),
                table_name@,
                z,
                x,
                y,
            ) && p.expires_at == now + old(self).pers().ttl() && p.expires_at_text@ == spec_udec(
                (now + old(self).pers().ttl()) as nat,
            ) && p.source@ == table_name@),
            !old(self).pers().is_enabled() ==> r is None,
    {
        let plan = self.persistent.put_plan(table_name, z, x, y, now);
        let key = TileCacheKey::new(table_name, z, x, y);
        self.memory.put(key, data, now);
        plan
    }

    /// Remove the tile from both tiers: the memory entry is gone at once,
    /// and the returned object key (when the durable tier is enabled) is
    /// what the caller must delete from the store. A failure there is the
    /// caller's to surface; it does not undo the memory-side removal.
    pub fn invalidate_tile(&mut self, table_name: &str, z: u32, x: u32, y: u32) -> (r: Option<
        String,
    >)
        requires
            old(self).wf(),
        ensures
            final(self).wf(),
            old(self).same_shape(*final(self)),
            final(self).mem().lookup(request_key(table_name@, z, x, y)) is None,
            forall|k2: KeyView|
                k2 != request_key(table_name@, z, x, y) ==> final(self).mem().lookup(k2) == old(
                    self,
                ).mem().lookup(k2),
            old(self).pers().is_enabled() ==> (r matches Some(k) && k@ == spec_s3_key(
                old(self).pers().prefix(),
                table_name@,
                z,
                x,
                y,
            )),
            !old(self).pers().is_enabled() ==> r is None,
    {
        let key = TileCacheKey::new(table_name, z, x, y);
        self.memory.invalidate(&key);
        self.persistent.delete_plan(table_name, z, x, y)
    }

    fn persistent_config(&self) -> (c: &crate::config::S3Config)
        ensures
            c.prefix@ == self.pers().prefix(),
            c.bucket@ == self.pers().bucket(),
            c.ttl_seconds == self.pers().ttl(),
    {
        self.persistent.config_ref()
    }
}

/// The view of an optional owned metadata string.
pub open spec fn opt_string_view_owned(o: Option<String>) -> Option<Seq<char>> {
    match o {
        Some(s) => Some(s@),
        None => None,
    }
}

/// Law: once a payload is admitted into the memory tier — by a fetch that
/// fell through to the generator, or by a promotion from the durable tier —
/// every fetch started within its TTL window is answered by the memory
/// tier, with no store read and no generator call.
pub proof fn lemma_fetch_populates(
    pre: MemoryTier,
    post: MemoryTier,
    k: KeyView,
    data: Seq<u8>,
    now: u64,
    now2: u64,
)
    requires
        pre.wf(),
        put_effect(pre, post, k, data, now, true),
        now <= now2 < now + post.ttl(),
    ensures
        post.visible(k, now2) == Some(data),
{
}

/// Law: a key the memory tier does not hold — after an invalidation, for
/// instance — is never answered from memory, whatever the clock says, so a
/// fetch for it must go back to the store or the generator.
pub proof fn lemma_absent_key_never_hit(t: MemoryTier, k: KeyView, now: u64)
    requires
        t.wf(),
        t.lookup(k) is None,
    ensures
        t.visible(k, now) is None,
{
}

} // verus!
