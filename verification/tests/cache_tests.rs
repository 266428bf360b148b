use std::collections::HashMap;

use vector_tile_services::config::{CacheConfig, S3Config};
use vector_tile_services::keys::{key_eq, CachedTile, TileCacheKey, TilePath};
use vector_tile_services::orchestrator::{
    AfterPersistent, CacheService, FetchStep, PersistentReadResult,
};

fn service(s3_enabled: bool) -> CacheService {
    CacheService::new(&CacheConfig::default(), S3Config::default(), s3_enabled)
}

fn small_service(max_memory_mb: u64, max_capacity: u64, ttl_seconds: u64) -> CacheService {
    let cc = CacheConfig { max_memory_mb, max_capacity, ttl_seconds };
    CacheService::new(&cc, S3Config::default(), false)
}

#[test]
fn config_defaults() {
    let cc = CacheConfig::default();
    assert_eq!(cc.max_memory_mb, 512);
    assert_eq!(cc.max_capacity, 50000);
    assert_eq!(cc.ttl_seconds, 900);
    let sc = S3Config::default();
    assert_eq!(sc.bucket, "tiles-cache");
    assert_eq!(sc.prefix, "vector-tiles");
    assert_eq!(sc.ttl_seconds, 86400);
}

#[test]
fn cached_tile_size_and_weight() {
    let t = CachedTile::new(vec![1, 2, 3, 4, 5]);
    assert_eq!(t.size, 5);
    assert_eq!(t.weight(), 5);
    let empty = CachedTile::new(Vec::new());
    assert_eq!(empty.size, 0);
    assert_eq!(empty.weight(), 0);
}

#[test]
fn key_identity() {
    let a = TileCacheKey::new("roads", 10, 512, 340);
    let b = TileCacheKey::new("roads", 10, 512, 340);
    let c = TileCacheKey::new("roads", 10, 512, 341);
    let d = TileCacheKey::new("water", 10, 512, 340);
    assert!(key_eq(&a, &b));
    assert!(!key_eq(&a, &c));
    assert!(!key_eq(&a, &d));
    let p = TilePath { table_name: String::from("roads"), z: 10, x: 512, y: 340 };
    assert!(key_eq(&p.to_cache_key(), &a));
}

#[test]
fn put_then_get_round_trip() {
    let mut svc = service(false);
    let payload = vec![1u8, 2, 3];
    assert!(svc.put_to_memory_cache("roads", 10, 512, 340, payload.clone(), 1000));
    assert_eq!(svc.get_from_memory_cache("roads", 10, 512, 340, 1000), Some(payload.clone()));
    // and a fetch is answered by the memory tier alone
    match svc.fetch_begin("roads", 10, 512, 340, 1000) {
        FetchStep::Hit(d) => assert_eq!(d, payload),
        _ => panic!("expected a memory hit"),
    }
}

#[test]
fn empty_payload_is_cacheable() {
    let mut svc = service(false);
    assert!(svc.put_to_memory_cache("roads", 1, 0, 0, Vec::new(), 50));
    assert_eq!(svc.get_from_memory_cache("roads", 1, 0, 0, 50), Some(Vec::new()));
}

#[test]
fn ttl_is_write_time() {
    let mut svc = service(false);
    let payload = vec![9u8];
    assert!(svc.put_to_memory_cache("roads", 10, 512, 340, payload.clone(), 1000));
    // alive strictly within the 900-second window
    assert_eq!(svc.get_from_memory_cache("roads", 10, 512, 340, 1899), Some(payload.clone()));
    // absent once the TTL has elapsed
    assert_eq!(svc.get_from_memory_cache("roads", 10, 512, 340, 1900), None);
    // a re-insertion resets the clock
    assert!(svc.put_to_memory_cache("roads", 10, 512, 340, payload.clone(), 1900));
    assert_eq!(svc.get_from_memory_cache("roads", 10, 512, 340, 2799), Some(payload));
}

#[test]
fn memory_bound_evicts_oldest() {
    // 1 MiB bound; three payloads of 600 KiB cannot all stay.
    let mut svc = small_service(1, 100, 900);
    let a = vec![1u8; 600 * 1024];
    let b = vec![2u8; 600 * 1024];
    assert!(svc.put_to_memory_cache("t", 1, 0, 0, a.clone(), 10));
    assert!(svc.put_to_memory_cache("t", 1, 0, 1, b.clone(), 11));
    // the oldest-inserted entry was evicted to make room
    assert_eq!(svc.get_from_memory_cache("t", 1, 0, 0, 12), None);
    assert_eq!(svc.get_from_memory_cache("t", 1, 0, 1, 12), Some(b));
}

#[test]
fn oversized_payload_is_rejected() {
    let mut svc = small_service(1, 100, 900);
    let small = vec![1u8; 1024];
    let huge = vec![2u8; 2 * 1024 * 1024];
    assert!(svc.put_to_memory_cache("t", 1, 0, 0, small.clone(), 10));
    // a payload that alone exceeds the bound is rejected outright...
    assert!(!svc.put_to_memory_cache("t", 1, 0, 1, huge, 11));
    assert_eq!(svc.get_from_memory_cache("t", 1, 0, 1, 12), None);
    // ...and the cache is not evicted to death for it
    assert_eq!(svc.get_from_memory_cache("t", 1, 0, 0, 12), Some(small));
}

#[test]
fn entry_cap_evicts_oldest() {
    let mut svc = small_service(512, 2, 900);
    assert!(svc.put_to_memory_cache("t", 1, 0, 0, vec![1], 10));
    assert!(svc.put_to_memory_cache("t", 1, 0, 1, vec![2], 11));
    assert!(svc.put_to_memory_cache("t", 1, 1, 0, vec![3], 12));
    assert_eq!(svc.get_from_memory_cache("t", 1, 0, 0, 13), None);
    assert_eq!(svc.get_from_memory_cache("t", 1, 0, 1, 13), Some(vec![2]));
    assert_eq!(svc.get_from_memory_cache("t", 1, 1, 0, 13), Some(vec![3]));
}

#[test]
fn replacement_does_not_grow_the_tier() {
    let mut svc = small_service(1, 100, 900);
    let first = vec![1u8; 700 * 1024];
    let second = vec![2u8; 700 * 1024];
    assert!(svc.put_to_memory_cache("t", 1, 0, 0, first, 10));
    // replacing the same key swaps the payload in place
    assert!(svc.put_to_memory_cache("t", 1, 0, 0, second.clone(), 11));
    assert_eq!(svc.get_from_memory_cache("t", 1, 0, 0, 12), Some(second));
}

#[test]
fn fetch_miss_generates_and_populates_both_tiers() {
    let mut svc = service(true);
    let now = 1000u64;
    let mut generator_calls = 0u32;

    // both tiers miss
    let key = match svc.fetch_begin("roads", 10, 512, 340, now) {
        FetchStep::NeedPersistent(k) => k,
        _ => panic!("expected a store read"),
    };
    assert_eq!(key, "vector-tiles/roads/10/512/340.pbf");
    match svc.fetch_after_persistent("roads", 10, 512, 340, now, PersistentReadResult::Absent) {
        AfterPersistent::Generate => {}
        _ => panic!("expected a generator call"),
    }
    generator_calls += 1;
    let tile = vec![0x1a, 0x2b, 0x3c];
    let plan = svc.fetch_after_generate("roads", 10, 512, 340, now, tile.clone()).unwrap();
    assert_eq!(plan.key, "vector-tiles/roads/10/512/340.pbf");
    assert_eq!(plan.expires_at, now + 86400);
    assert_eq!(plan.expires_at_text, "87400");
    assert_eq!(plan.source, "roads");

    // a second fetch is a memory hit: the generator is not consulted again
    match svc.fetch_begin("roads", 10, 512, 340, now + 1) {
        FetchStep::Hit(d) => assert_eq!(d, tile),
        _ => panic!("expected a memory hit"),
    }
    assert_eq!(generator_calls, 1);
}

#[test]
fn store_hit_is_promoted_into_memory() {
    let mut svc = service(true);
    let tile = vec![7u8, 8, 9];
    // memory misses; the store still holds the tile with a live deadline
    match svc.fetch_begin("roads", 10, 512, 340, 5000) {
        FetchStep::NeedPersistent(_) => {}
        _ => panic!("expected a store read"),
    }
    let result = PersistentReadResult::Found(tile.clone(), Some(String::from("90000")));
    match svc.fetch_after_persistent("roads", 10, 512, 340, 5000, result) {
        AfterPersistent::Deliver(d) => assert_eq!(d, tile),
        _ => panic!("expected delivery"),
    }
    // promoted: the next fetch within the TTL is a memory hit
    match svc.fetch_begin("roads", 10, 512, 340, 5001) {
        FetchStep::Hit(d) => assert_eq!(d, tile),
        _ => panic!("expected a memory hit after promotion"),
    }
}

#[test]
fn memory_expiry_falls_back_to_store_and_promotes() {
    let mut svc = service(true);
    let tile = vec![4u8, 5];
    assert!(svc.put_to_memory_cache("roads", 10, 512, 340, tile.clone(), 1000));
    // the memory TTL (900 s) has elapsed, the store TTL (86 400 s) has not
    let now = 2000u64;
    match svc.fetch_begin("roads", 10, 512, 340, now) {
        FetchStep::NeedPersistent(_) => {}
        _ => panic!("expected fallthrough to the store"),
    }
    let result = PersistentReadResult::Found(tile.clone(), Some(String::from("87400")));
    match svc.fetch_after_persistent("roads", 10, 512, 340, now, result) {
        AfterPersistent::Deliver(d) => assert_eq!(d, tile),
        _ => panic!("expected delivery without the generator"),
    }
    match svc.fetch_begin("roads", 10, 512, 340, now + 1) {
        FetchStep::Hit(d) => assert_eq!(d, tile),
        _ => panic!("expected a memory hit after promotion"),
    }
}

#[test]
fn expired_store_object_is_deleted_on_read() {
    let mut svc = service(true);
    // a toy object store: key to (bytes, expires_at metadata)
    let mut store: HashMap<String, (Vec<u8>, Option<String>)> = HashMap::new();
    store.insert(
        String::from("vector-tiles/roads/10/512/340.pbf"),
        (vec![1u8, 2], Some(String::from("1000"))),
    );

    // the read that discovers the stale deadline deletes the object
    let now = 2000u64;
    let key = match svc.fetch_begin("roads", 10, 512, 340, now) {
        FetchStep::NeedPersistent(k) => k,
        _ => panic!("expected a store read"),
    };
    let (bytes, meta) = store.get(&key).cloned().unwrap();
    let result = PersistentReadResult::Found(bytes, meta);
    match svc.fetch_after_persistent("roads", 10, 512, 340, now, result) {
        AfterPersistent::DeleteThenGenerate(delete_key) => {
            assert_eq!(delete_key, key);
            store.remove(&delete_key);
        }
        _ => panic!("expected lazy expiry"),
    }

    // a subsequent read in the same session finds the key absent
    let key2 = match svc.fetch_begin("roads", 10, 512, 340, now + 1) {
        FetchStep::NeedPersistent(k) => k,
        _ => panic!("expected a store read"),
    };
    assert!(store.get(&key2).is_none());
    match svc.fetch_after_persistent(
        "roads",
        10,
        512,
        340,
        now + 1,
        PersistentReadResult::Absent,
    ) {
        AfterPersistent::Generate => {}
        _ => panic!("expected a generator call"),
    }
}

#[test]
fn transient_store_failure_falls_through() {
    let mut svc = service(true);
    match svc.fetch_after_persistent("roads", 10, 512, 340, 100, PersistentReadResult::Failed) {
        AfterPersistent::Generate => {}
        _ => panic!("a store failure must fall through to the generator"),
    }
}

#[test]
fn disabled_store_tier_goes_straight_to_generator() {
    let mut svc = service(false);
    match svc.fetch_begin("roads", 10, 512, 340, 100) {
        FetchStep::NeedGenerate => {}
        _ => panic!("expected a direct generator call"),
    }
    // the durable write is skipped, the memory tier is still populated
    let tile = vec![1u8];
    assert!(svc.fetch_after_generate("roads", 10, 512, 340, 100, tile.clone()).is_none());
    match svc.fetch_begin("roads", 10, 512, 340, 101) {
        FetchStep::Hit(d) => assert_eq!(d, tile),
        _ => panic!("expected a memory hit"),
    }
}

#[test]
fn invalidate_clears_both_tiers() {
    let mut svc = service(true);
    let tile = vec![6u8];
    let now = 1000u64;
    // populate via a full fetch
    match svc.fetch_after_persistent("roads", 10, 512, 340, now, PersistentReadResult::Absent) {
        AfterPersistent::Generate => {}
        _ => panic!("expected a generator call"),
    }
    svc.fetch_after_generate("roads", 10, 512, 340, now, tile.clone()).unwrap();
    match svc.fetch_begin("roads", 10, 512, 340, now, ) {
        FetchStep::Hit(_) => {}
        _ => panic!("expected a memory hit"),
    }

    // invalidation clears memory at once and names the object to delete
    let delete_key = svc.invalidate_tile("roads", 10, 512, 340).unwrap();
    assert_eq!(delete_key, "vector-tiles/roads/10/512/340.pbf");
    assert_eq!(svc.get_from_memory_cache("roads", 10, 512, 340, now), None);

    // with the store emptied too, the next fetch must generate again
    match svc.fetch_begin("roads", 10, 512, 340, now) {
        FetchStep::NeedPersistent(_) => {}
        _ => panic!("expected a store read"),
    }
    match svc.fetch_after_persistent("roads", 10, 512, 340, now, PersistentReadResult::Absent) {
        AfterPersistent::Generate => {}
        _ => panic!("expected the generator after invalidation"),
    }
}

#[test]
fn invalidate_on_disabled_tier_clears_memory_only() {
    let mut svc = service(false);
    assert!(svc.put_to_memory_cache("roads", 1, 2, 3, vec![1], 10));
    assert!(svc.invalidate_tile("roads", 1, 2, 3).is_none());
    assert_eq!(svc.get_from_memory_cache("roads", 1, 2, 3, 10), None);
}

#[test]
fn different_keys_do_not_interfere() {
    let mut svc = service(false);
    assert!(svc.put_to_memory_cache("roads", 10, 512, 340, vec![1], 10));
    assert!(svc.put_to_memory_cache("water", 10, 512, 340, vec![2], 10));
    assert!(svc.put_to_memory_cache("roads", 11, 512, 340, vec![3], 10));
    svc.invalidate_tile("roads", 10, 512, 340);
    assert_eq!(svc.get_from_memory_cache("water", 10, 512, 340, 10), Some(vec![2]));
    assert_eq!(svc.get_from_memory_cache("roads", 11, 512, 340, 10), Some(vec![3]));
}
