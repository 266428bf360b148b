//! Configuration for the two cache tiers.
//!
//! The defaults below are the cache's own policy; reading overrides from the
//! process environment is the embedding program's job, which then fills these
//! structs with whatever values it parsed.

use vstd::prelude::*;

verus! {

/// Configuration of the in-memory tier.
///
/// `max_memory_mb` bounds the summed payload bytes held at once (the
/// authoritative limit); `max_capacity` is a secondary, soft entry-count
/// bound; `ttl_seconds` is the write-time TTL of every entry.
pub struct CacheConfig {
    pub max_memory_mb: u64,
    pub max_capacity: u64,
    pub ttl_seconds: u64,
}

impl Default for CacheConfig {
    /// The stock policy: 512 MiB of payloads, at most 50 000 entries,
    /// entries live 900 seconds from their last insertion.
    fn default() -> (c: CacheConfig)
        ensures
            c.max_memory_mb == 512,
            c.max_capacity == 50000,
            c.ttl_seconds == 900,
    {
        CacheConfig { max_memory_mb: 512, max_capacity: 50000, ttl_seconds: 900 }
    }
}

/// Configuration of the durable object-store tier.
///
/// Objects are written under `prefix` in `bucket` and carry an absolute
/// expiry computed from `ttl_seconds` at write time.
pub struct S3Config {
    pub bucket: String,
    pub prefix: String,
    pub ttl_seconds: u64,
}

impl Default for S3Config {
    /// The stock policy: bucket `tiles-cache`, prefix `vector-tiles`,
    /// objects live 86 400 seconds (one day) from upload.
    fn default() -> (c: S3Config)
        ensures
            c.bucket@ == "tiles-cache"@,
            c.prefix@ == "vector-tiles"@,
            c.ttl_seconds == 86400,
    {
        S3Config {
            bucket: "tiles-cache".to_owned(),
            prefix: "vector-tiles".to_owned(),
            ttl_seconds: 86400,
        }
    }
}

} // verus!
