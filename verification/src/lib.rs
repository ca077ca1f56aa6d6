//! An in-memory content-addressed registry.
//!
//! Clients register a hash key together with a binary payload and descriptive
//! metadata; the registry keeps the records append-only, rejects duplicate
//! keys and oversized payloads, and serves the records back whole, stripped
//! of their payload for listings, or as bounded byte-range chunks.

pub mod laws;
pub mod record;
pub mod registry;

use vstd::prelude::*;

verus! {

/// Upper bound, in bytes, on the payload accepted by a registration.
pub const MAX_PAYLOAD_BYTES: usize = 2 * 1024 * 1024;

} // verus!
