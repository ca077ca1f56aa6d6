//! Laws relating the registry's operations to one another.
//!
//! Each proof function below states a behavioural guarantee that spans more
//! than one operation, over the same spec-level model that the operations'
//! own contracts use. `call_ensures(f, args, out)` says that `out` is a
//! possible result of calling `f` on `args`, so every conclusion drawn here
//! holds of every actual call.

use vstd::prelude::*;

use crate::record::HashInfo;
use crate::registry::Registry;
use crate::registry::RegisterError;

verus! {

/// Uniqueness: once a record is registered under a key — as holds after
/// every successful registration — any later registration attempt under
/// the same key with a payload within bounds fails with `DuplicateKey`,
/// and the whole store, in particular the record under that key, is left
/// unchanged.
pub proof fn lemma_register_unique(
    m: &mut Registry,
    hash: String,
    content: Vec<u8>,
    content_type: String,
    name: String,
    description: String,
    owner_name: String,
    owner_dob: String,
    royalty_fee: String,
    has_royalty: bool,
    contact_details: String,
    user: Vec<u8>,
    timestamp: u64,
    r: Result<(), RegisterError>,
)
    requires
        old(m).wf(),
        old(m).contains_key(hash@),
        content@.len() <= crate::MAX_PAYLOAD_BYTES,
        call_ensures(
            Registry::register_hash,
            (
                m,
                hash,
                content,
                content_type,
                name,
                description,
                owner_name,
                owner_dob,
                royalty_fee,
                has_royalty,
                contact_details,
                user,
                timestamp,
            ),
            r,
        ),
    ensures
        r == Err::<(), RegisterError>(RegisterError::DuplicateKey),
        *final(m) == *old(m),
        final(m).spec_get(hash@) == old(m).spec_get(hash@),
{
}

/// Listing strips the payload: the listing entry that carries a registered
/// key has no payload, while a full lookup under that key returns the
/// stored record's payload unchanged.
pub proof fn lemma_listing_strips_payload(
    s: Registry,
    listing: Vec<(String, HashInfo)>,
    hash: String,
    r: Option<HashInfo>,
    i: int,
)
    requires
        s.wf(),
        call_ensures(Registry::get_all_files, (&s,), listing),
        call_ensures(Registry::get_hash_info, (&s, hash), r),
        0 <= i < listing@.len(),
        listing@[i].0@ == hash@,
    ensures
        listing@[i].1@.content is None,
        r matches Some(info) && info@.content == s.info_at(i).content,
{
    s.lemma_get_at(i);
}

/// Unknown-key safety: reads under a never-registered key do not fail —
/// lookup returns nothing, the listing carries no entry with that key, and
/// a chunked read returns the empty byte sequence.
pub proof fn lemma_unknown_key_safe(
    s: Registry,
    k: Seq<char>,
    lookup_key: String,
    r: Option<HashInfo>,
    listing: Vec<(String, HashInfo)>,
    chunk_key: String,
    offset: u32,
    chunk_size: u32,
    chunk: Vec<u8>,
)
    requires
        s.wf(),
        !s.contains_key(k),
        lookup_key@ == k,
        chunk_key@ == k,
        call_ensures(Registry::get_hash_info, (&s, lookup_key), r),
        call_ensures(Registry::get_all_files, (&s,), listing),
        call_ensures(Registry::get_file_chunk, (&s, chunk_key, offset, chunk_size), chunk),
    ensures
        r is None,
        forall|i: int| 0 <= i < listing@.len() ==> (#[trigger] listing@[i]).0@ != k,
        chunk@ == Seq::<u8>::empty(),
{
    assert forall|i: int| 0 <= i < listing@.len() implies (#[trigger] listing@[i]).0@ != k by {
        if listing@[i].0@ == k {
            assert(0 <= i < s.len() && s.key_at(i) == k);
            assert(s.contains_key(k));
        }
    }
}

/// Idempotent reads: with the store unchanged, repeated lookups and
/// repeated chunked reads with the same arguments return identical
/// results.
pub proof fn lemma_reads_idempotent(
    s: Registry,
    first_key: String,
    second_key: String,
    r1: Option<HashInfo>,
    r2: Option<HashInfo>,
    first_chunk_key: String,
    second_chunk_key: String,
    offset: u32,
    chunk_size: u32,
    c1: Vec<u8>,
    c2: Vec<u8>,
)
    requires
        s.wf(),
        first_key@ == second_key@,
        first_chunk_key@ == second_chunk_key@,
        call_ensures(Registry::get_hash_info, (&s, first_key), r1),
        call_ensures(Registry::get_hash_info, (&s, second_key), r2),
        call_ensures(Registry::get_file_chunk, (&s, first_chunk_key, offset, chunk_size), c1),
        call_ensures(Registry::get_file_chunk, (&s, second_chunk_key, offset, chunk_size), c2),
    ensures
        r1 is Some <==> r2 is Some,
        r1 matches Some(a) ==> (r2 matches Some(b) && a@ == b@),
        c1@ == c2@,
{
}

} // verus!
