//! Tile identity: the cache key, the request path, and the cached payload.

use vstd::prelude::*;

verus! {

/// Identifies one tile uniquely: the source table plus the slippy-map
/// address. Two requests for the same table and address always resolve to
/// the same key, and no two different tiles share one.
#[derive(Clone, Debug, Hash, Eq, PartialEq)]
pub struct TileCacheKey {
    pub table_name: String,
    pub z: u32,
    pub x: u32,
    pub y: u32,
}

/// The mathematical identity of a key: its table name as a character
/// sequence plus the tile address. Cache contents are modeled as maps
/// keyed by this value.
pub ghost struct KeyView {
    pub table_name: Seq<char>,
    pub z: u32,
    pub x: u32,
    pub y: u32,
}

impl View for TileCacheKey {
    type V = KeyView;

    open spec fn view(&self) -> KeyView {
        KeyView { table_name: self.table_name@, z: self.z, x: self.x, y: self.y }
    }
}

impl TileCacheKey {
    pub fn new(table_name: &str, z: u32, x: u32, y: u32) -> (k: TileCacheKey)
        ensures
            k@ == (KeyView { table_name: table_name@, z, x, y }),
    {
        TileCacheKey { table_name: table_name.to_owned(), z, x, y }
    }
}

/// Whether two keys identify the same tile.
pub fn key_eq(a: &TileCacheKey, b: &TileCacheKey) -> (r: bool)
    ensures
        r == (a@ == b@),
{
    let r = a.table_name == b.table_name && a.z == b.z && a.x == b.x && a.y == b.y;
    proof {
        if r {
            assert(a@ == b@);
        }
    }
    r
}

/// One tile payload as the cache holds it: the rendered bytes plus their
/// count, which is the unit the in-memory tier's weight accounting uses.
/// An empty payload is a valid tile ("no features here"), not a miss.
#[derive(Clone)]
pub struct CachedTile {
    pub data: Vec<u8>,
    pub size: usize,
}

impl CachedTile {
    /// A payload is well formed when its recorded size is the byte count.
    pub open spec fn wf(self) -> bool {
        self.size == self.data@.len()
    }

    pub fn new(data: Vec<u8>) -> (t: CachedTile)
        ensures
            t.wf(),
            t.data@ == data@,
            t.size == data@.len(),
    {
        let size = data.len();
        CachedTile { data, size }
    }

    /// The weight of this payload for the memory bound, as the 32-bit
    /// value the weigher reports (an over-4-GiB payload would wrap; such
    /// payloads do not arise for tiles).
    pub fn weight(&self) -> (w: u32)
        ensures
            w == self.size as u32,
    {
        #[verifier::truncate] (self.size as u32)
    }
}

/// The address part of a tile request as the HTTP layer hands it over:
/// which table, and which tile of it.
pub struct TilePath {
    pub table_name: String,
    pub z: u32,
    pub x: u32,
    pub y: u32,
}

impl TilePath {
    /// The cache key this request resolves to.
    pub fn to_cache_key(&self) -> (k: TileCacheKey)
        ensures
            k@ == (KeyView { table_name: self.table_name@, z: self.z, x: self.x, y: self.y }),
    {
        TileCacheKey {
            table_name: self.table_name.clone(),
            z: self.z,
            x: self.x,
            y: self.y,
        }
    }
}

} // verus!
