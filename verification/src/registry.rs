//! The registry: an append-only store of records keyed by a hash string.

use vstd::prelude::*;

use crate::record::HashInfo;
use crate::record::HashInfoView;
use crate::record::strip_content;

verus! {

/// The two ways a registration can fail.
///
/// Both abort the call with no state change; every read operation is total
/// and never fails.
#[derive(Debug, Clone, Copy, PartialEq, Eq, Structural)]
pub enum RegisterError {
    /// The payload exceeds [`crate::MAX_PAYLOAD_BYTES`].
    PayloadTooLarge,
    /// The key is already registered; the existing record is left untouched.
    DuplicateKey,
}

/// The bounded byte-range slice of `content` that a chunked read returns:
/// at most `len` bytes starting at `offset`, truncated to the available
/// bytes, and empty when `offset` is at or past the end.
pub open spec fn chunk_of(content: Seq<u8>, offset: nat, len: nat) -> Seq<u8> {
    if offset >= content.len() {
        Seq::empty()
    } else if offset + len <= content.len() {
        content.subrange(offset as int, (offset + len) as int)
    } else {
        content.subrange(offset as int, content.len() as int)
    }
}

/// One stored association of a key with its record.
struct Entry {
    key: String,
    info: HashInfo,
}

/// An in-memory store mapping each registered hash string to its record.
///
/// Records are write-once: they are inserted by a successful registration
/// and never updated or removed afterwards.
pub struct Registry {
    entries: Vec<Entry>,
}

impl Registry {
    /// Number of registered records.
    pub closed spec fn len(self) -> nat {
        self.entries@.len()
    }

    /// The key of the record at position `i`, in insertion order.
    pub closed spec fn key_at(self, i: int) -> Seq<char> {
        self.entries@[i].key@
    }

    /// The record at position `i`, in insertion order.
    pub closed spec fn info_at(self, i: int) -> HashInfoView {
        self.entries@[i].info@
    }

    /// Whether some record is registered under the key `k`.
    pub open spec fn contains_key(self, k: Seq<char>) -> bool {
        exists|i: int| 0 <= i < self.len() && self.key_at(i) == k
    }

    /// The record registered under the key `k` (meaningful when
    /// `contains_key(k)` holds and the keys are unique).
    pub open spec fn spec_get(self, k: Seq<char>) -> HashInfoView {
        let i = choose|i: int| 0 <= i < self.len() && self.key_at(i) == k;
        self.info_at(i)
    }

    /// Well-formedness: no key is registered twice, and every stored
    /// payload respects the registration size bound.
    pub open spec fn wf(self) -> bool {
        &&& forall|i: int, j: int|
            0 <= i < self.len() && 0 <= j < self.len() && i != j ==> self.key_at(i) != self.key_at(
                j,
            )
        &&& forall|i: int|
            0 <= i < self.len() ==> match #[trigger] self.info_at(i).content {
                Some(c) => c.len() <= crate::MAX_PAYLOAD_BYTES,
                None => true,
            }
    }

    /// An empty registry.
    pub fn new() -> (r: Registry)
        ensures
            r.len() == 0,
            r.wf(),
    {
        Registry { entries: Vec::new() }
    }

    /// Whether a record is registered under `hash`.
    pub fn has_key(&self, hash: &String) -> (r: bool)
        ensures
            r == self.contains_key(hash@),
    {
        let mut i: usize = 0;
        while i < self.entries.len()
            invariant
                i <= self.entries.len(),
                forall|j: int| 0 <= j < i ==> self.key_at(j) != hash@,
            decreases self.entries.len() - i,
        {
            if self.entries[i].key == *hash {
                assert(self.key_at(i as int) == hash@);
                return true;
            }
            i = i + 1;
        }
        false
    }

    /// With unique keys, the record found at a position is the record that
    /// lookup under that position's key denotes.
    pub proof fn lemma_get_at(self, i: int)
        requires
            self.wf(),
            0 <= i < self.len(),
        ensures
            self.contains_key(self.key_at(i)),
            self.spec_get(self.key_at(i)) == self.info_at(i),
    {
        let k = self.key_at(i);
        assert(0 <= i < self.len() && self.key_at(i) == k);
        let j = choose|j: int| 0 <= j < self.len() && self.key_at(j) == k;
        assert(j == i);
    }

    /// Position of the entry registered under `hash`, if any.
    fn index_of(&self, hash: &String) -> (r: Option<usize>)
        ensures
            match r {
                Some(i) => i < self.len() && self.key_at(i as int) == hash@,
                None => !self.contains_key(hash@),
            },
    {
        let mut i: usize = 0;
        while i < self.entries.len()
            invariant
                i <= self.entries.len(),
                forall|j: int| 0 <= j < i ==> self.key_at(j) != hash@,
            decreases self.entries.len() - i,
        {
            if self.entries[i].key == *hash {
                return Some(i);
            }
            i = i + 1;
        }
        None
    }

    /// Registers a new record under `hash`.
    ///
    /// The payload must not exceed [`crate::MAX_PAYLOAD_BYTES`] and the key
    /// must not already be registered; otherwise the call fails with the
    /// corresponding error and the store is left unchanged. On success the
    /// record is appended, stamped with the host-supplied caller identity
    /// and timestamp, and all previously registered records are untouched.
    pub fn register_hash(
        &mut self,
        hash: String,
        content: Vec<u8>,
        content_type: String,
        name: String,
        description: String,
        owner_name: String,
        owner_dob: String,
        royalty_fee: String,
        has_royalty: bool,
        contact_details: String,
        user: Vec<u8>,
        timestamp: u64,
    ) -> (r: Result<(), RegisterError>)
        requires
            old(self).wf(),
        ensures
            final(self).wf(),
            r == Err::<(), RegisterError>(RegisterError::PayloadTooLarge) <==> content@.len()
                > crate::MAX_PAYLOAD_BYTES,
            r == Err::<(), RegisterError>(RegisterError::DuplicateKey) <==> (content@.len()
                <= crate::MAX_PAYLOAD_BYTES && old(self).contains_key(hash@)),
            r is Ok <==> (content@.len() <= crate::MAX_PAYLOAD_BYTES && !old(self).contains_key(
                hash@,
            )),
            r is Err ==> *final(self) == *old(self),
            r is Ok ==> {
                &&& final(self).len() == old(self).len() + 1
                &&& final(self).key_at(old(self).len() as int) == hash@
                &&& final(self).info_at(old(self).len() as int) == (HashInfoView {
                    user: user@,
                    timestamp: timestamp,
                    content: Some(content@),
                    content_type: content_type@,
                    name: name@,
                    description: description@,
                    owner_name: owner_name@,
                    owner_dob: owner_dob@,
                    royalty_fee: royalty_fee@,
                    has_royalty: has_royalty,
                    contact_details: contact_details@,
                })
                &&& forall|i: int|
                    0 <= i < old(self).len() ==> final(self).key_at(i) == old(self).key_at(i)
                        && final(self).info_at(i) == old(self).info_at(i)
                &&& final(self).contains_key(hash@)
                &&& final(self).spec_get(hash@) == final(self).info_at(old(self).len() as int)
            },
    {
        if content.len() > crate::MAX_PAYLOAD_BYTES {
            return Err(RegisterError::PayloadTooLarge);
        }
        if self.has_key(&hash) {
            return Err(RegisterError::DuplicateKey);
        }
        let ghost pre = *self;
        let entry = Entry {
            key: hash,
            info: HashInfo {
                user,
                timestamp,
                content: Some(content),
                content_type,
                name,
                description,
                owner_name,
                owner_dob,
                royalty_fee,
                has_royalty,
                contact_details,
            },
        };
        self.entries.push(entry);
        proof {
            let n = pre.len() as int;
            assert(forall|i: int| 0 <= i < n ==> self.key_at(i) == pre.key_at(i));
            assert(forall|i: int| 0 <= i < n ==> self.info_at(i) == pre.info_at(i));
            assert forall|i: int, j: int|
                0 <= i < self.len() && 0 <= j < self.len() && i != j implies self.key_at(i)
                != self.key_at(j) by {
                if i == n {
                    assert(pre.key_at(j) != hash@);
                } else if j == n {
                    assert(pre.key_at(i) != hash@);
                } else {
                    assert(pre.key_at(i) != pre.key_at(j));
                }
            }
            assert forall|i: int| 0 <= i < self.len() implies match (#[trigger] self.info_at(
                i,
            )).content {
                Some(c) => c.len() <= crate::MAX_PAYLOAD_BYTES,
                None => true,
            } by {
                if i < n {
                    assert(match pre.info_at(i).content {
                        Some(c) => c.len() <= crate::MAX_PAYLOAD_BYTES,
                        None => true,
                    });
                } else {
                    assert(self.info_at(n).content == Some(content@));
                }
            }
            assert(self.wf());
            self.lemma_get_at(n);
        }
        Ok(())
    }

    /// Full record lookup: returns the record registered under `hash`,
    /// payload included, or nothing when the key is unknown.
    pub fn get_hash_info(&self, hash: String) -> (r: Option<HashInfo>)
        requires
            self.wf(),
        ensures
            r is Some <==> self.contains_key(hash@),
            r matches Some(info) ==> info@ == self.spec_get(hash@),
    {
        match self.index_of(&hash) {
            Some(i) => {
                proof {
                    self.lemma_get_at(i as int);
                }
                Some(self.entries[i].info.clone())
            },
            None => None,
        }
    }

    /// Alias of [`Registry::get_hash_info`], kept because the external
    /// surface historically exposed it as a distinct name.
    pub fn verify_hash(&self, hash: String) -> (r: Option<HashInfo>)
        requires
            self.wf(),
        ensures
            r is Some <==> self.contains_key(hash@),
            r matches Some(info) ==> info@ == self.spec_get(hash@),
    {
        self.get_hash_info(hash)
    }

    /// Alias of [`Registry::get_hash_info`], kept because the external
    /// surface historically exposed it as a distinct name.
    pub fn get_hash_metadata(&self, hash: String) -> (r: Option<HashInfo>)
        requires
            self.wf(),
        ensures
            r is Some <==> self.contains_key(hash@),
            r matches Some(info) ==> info@ == self.spec_get(hash@),
    {
        self.get_hash_info(hash)
    }

    /// Lists every registered record in insertion order, each paired with
    /// its key and stripped of its payload.
    pub fn get_all_files(&self) -> (r: Vec<(String, HashInfo)>)
        ensures
            r@.len() == self.len(),
            forall|i: int|
                0 <= i < self.len() ==> (#[trigger] r@[i]).0@ == self.key_at(i) && r@[i].1@
                    == strip_content(self.info_at(i)),
    {
        let mut r: Vec<(String, HashInfo)> = Vec::new();
        let mut i: usize = 0;
        while i < self.entries.len()
            invariant
                i <= self.entries.len(),
                r@.len() == i,
                forall|j: int|
                    0 <= j < i ==> (#[trigger] r@[j]).0@ == self.key_at(j) && r@[j].1@
                        == strip_content(self.info_at(j)),
            decreases self.entries.len() - i,
        {
            let key = self.entries[i].key.clone();
            let info = self.entries[i].info.without_content();
            r.push((key, info));
            i = i + 1;
        }
        r
    }

    /// Bounded chunked read of a record's payload: at most `chunk_size`
    /// bytes starting at `offset`, truncated to the available bytes.
    ///
    /// An unknown key, an absent payload, or an offset at or past the end
    /// of the payload all yield an empty result, never a failure.
    pub fn get_file_chunk(&self, hash: String, offset: u32, chunk_size: u32) -> (r: Vec<u8>)
        requires
            self.wf(),
        ensures
            !self.contains_key(hash@) ==> r@ == Seq::<u8>::empty(),
            self.contains_key(hash@) ==> match self.spec_get(hash@).content {
                Some(c) => r@ == chunk_of(c, offset as nat, chunk_size as nat),
                None => r@ == Seq::<u8>::empty(),
            },
    {
        match self.index_of(&hash) {
            Some(i) => {
                proof {
                    self.lemma_get_at(i as int);
                }
                match &self.entries[i].info.content {
                    Some(content) => {
                        let start: usize = offset as usize;
                        if start >= content.len() {
                            return Vec::new();
                        }
                        let remaining: usize = content.len() - start;
                        let want: usize = chunk_size as usize;
                        let take: usize = if want < remaining {
                            want
                        } else {
                            remaining
                        };
                        let mut r: Vec<u8> = Vec::new();
                        proof {
                            assert(r@ =~= content@.subrange(start as int, start as int));
                        }
                        let mut j: usize = 0;
                        while j < take
                            invariant
                                j <= take,
                                start + take <= content@.len(),
                                start + take <= usize::MAX,
                                r@ == content@.subrange(start as int, start + j as int),
                            decreases take - j,
                        {
                            proof {
                                assert(start + j < content@.len());
                            }
                            r.push(content[start + j]);
                            j = j + 1;
                            proof {
                                assert(r@ =~= content@.subrange(start as int, start + j as int));
                            }
                        }
                        proof {
                            assert(r@ =~= chunk_of(
                                content@,
                                offset as nat,
                                chunk_size as nat,
                            ));
                        }
                        r
                    },
                    None => Vec::new(),
                }
            },
            None => Vec::new(),
        }
    }
}

} // verus!
