//! The record stored under one registered hash key.

use vstd::prelude::*;

verus! {

/// Mathematical image of a [`HashInfo`]: every field as a plain
/// sequence-level value.
pub ghost struct HashInfoView {
    pub user: Seq<u8>,
    pub timestamp: u64,
    pub content: Option<Seq<u8>>,
    pub content_type: Seq<char>,
    pub name: Seq<char>,
    pub description: Seq<char>,
    pub owner_name: Seq<char>,
    pub owner_dob: Seq<char>,
    pub royalty_fee: Seq<char>,
    pub has_royalty: bool,
    pub contact_details: Seq<char>,
}

/// One registry record: the identity of the registering caller, the
/// registration timestamp, the optional payload, and free-form metadata.
///
/// All fields are set once at registration and never mutated afterwards.
/// The caller identity is an opaque byte token supplied by the host
/// environment; the registry records it verbatim and never interprets it.
pub struct HashInfo {
    pub user: Vec<u8>,
    pub timestamp: u64,
    pub content: Option<Vec<u8>>,
    pub content_type: String,
    pub name: String,
    pub description: String,
    pub owner_name: String,
    pub owner_dob: String,
    pub royalty_fee: String,
    pub has_royalty: bool,
    pub contact_details: String,
}

impl View for HashInfo {
    type V = HashInfoView;

    open spec fn view(&self) -> HashInfoView {
        HashInfoView {
            user: self.user@,
            timestamp: self.timestamp,
            content: match self.content {
                Some(c) => Some(c@),
                None => None,
            },
            content_type: self.content_type@,
            name: self.name@,
            description: self.description@,
            owner_name: self.owner_name@,
            owner_dob: self.owner_dob@,
            royalty_fee: self.royalty_fee@,
            has_royalty: self.has_royalty,
            contact_details: self.contact_details@,
        }
    }
}

/// The same record with the payload removed, as handed out by listings.
pub open spec fn strip_content(v: HashInfoView) -> HashInfoView {
    HashInfoView { content: None, ..v }
}

/// Byte-for-byte copy of a byte vector.
pub fn copy_bytes(v: &Vec<u8>) -> (r: Vec<u8>)
    ensures
        r@ == v@,
{
    let mut r: Vec<u8> = Vec::new();
    let mut i: usize = 0;
    while i < v.len()
        invariant
            i <= v.len(),
            r@ == v@.subrange(0, i as int),
        decreases v.len() - i,
    {
        r.push(v[i]);
        i = i + 1;
        proof {
            assert(r@ =~= v@.subrange(0, i as int));
        }
    }
    proof {
        assert(r@ =~= v@);
    }
    r
}

impl Clone for HashInfo {
    /// A clone preserves the record exactly, field for field.
    fn clone(&self) -> (r: Self)
        ensures
            r@ == self@,
    {
        HashInfo {
            user: copy_bytes(&self.user),
            timestamp: self.timestamp,
            content: match &self.content {
                Some(c) => Some(copy_bytes(c)),
                None => None,
            },
            content_type: self.content_type.clone(),
            name: self.name.clone(),
            description: self.description.clone(),
            owner_name: self.owner_name.clone(),
            owner_dob: self.owner_dob.clone(),
            royalty_fee: self.royalty_fee.clone(),
            has_royalty: self.has_royalty,
            contact_details: self.contact_details.clone(),
        }
    }
}

impl HashInfo {
    /// The record with its payload removed, for bandwidth-free listings.
    pub fn without_content(&self) -> (r: Self)
        ensures
            r@ == strip_content(self@),
    {
        HashInfo {
            user: copy_bytes(&self.user),
            timestamp: self.timestamp,
            content: None,
            content_type: self.content_type.clone(),
            name: self.name.clone(),
            description: self.description.clone(),
            owner_name: self.owner_name.clone(),
            owner_dob: self.owner_dob.clone(),
            royalty_fee: self.royalty_fee.clone(),
            has_royalty: self.has_royalty,
            contact_details: self.contact_details.clone(),
        }
    }
}

} // verus!
