//! Tiered tile cache for a vector-tile service.
//!
//! The core of the crate is a two-tier, cache-aside tile cache:
//! a weight-bounded, TTL-based in-memory tier backed by a durable
//! object-store tier whose expiry travels with each object as metadata.
//! The crate also holds the slippy-map tile address to Web Mercator
//! bounding-box transform that feeds cache keys and the tile generator.
//!
//! Everything here is pure: time enters as an epoch-seconds argument and
//! object-store traffic is described by plans and resolved by decisions,
//! so that the surrounding process performs the I/O while this crate owns
//! every rule about what is cached, for how long, and in what order the
//! tiers are consulted.

pub mod config;
pub mod coords;
pub mod keys;
pub mod memory;
pub mod orchestrator;
pub mod persistent;
