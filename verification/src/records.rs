//! The two record kinds of the ledger and their space accounting.  A record's
//! byte footprint is computed exactly once, before creation, and can never
//! grow: each record therefore carries the byte lengths reserved for its
//! variable-length fields, and every later mutation is checked against them.

use vstd::prelude::*;

verus! {

/// The store's own bookkeeping prefix, added unconditionally to every record.
pub const HEADER_BYTES: usize = 8;

/// Byte width of a length prefix in the persisted layout: each
/// variable-length field and each bounded sequence is encoded behind one.
pub const LEN_PREFIX_BYTES: usize = 4;

/// Byte width of an identity (a public key).
pub const IDENTITY_BYTES: usize = 32;

/// A blog record: one per owner, holding a growing collection of posts and a
/// bounded list of subscribers.
#[derive(Debug)]
pub struct BlogAccount {
    /// The salt that completes this record's seed tuple; kept so the address
    /// can be re-derived and verified later.
    pub bump: u8,
    /// Number of posts created under this blog; also the sequencing seed of
    /// the next post's address.
    pub post_count: u8,
    /// The owner: only this identity may mutate the record.
    pub authority: [u8; 32],
    /// Variable-length text classification, mutable within its reservation.
    pub category: Vec<u8>,
    /// Byte length reserved for `category` at creation; never changes.
    pub category_space: u32,
    /// Upper bound on the subscriber list, declared once at creation.
    pub vector_capacity: u16,
    /// Identities subscribed to this blog, append-only.
    pub subscribers_pubkeys: Vec<[u8; 32]>,
}

/// A post record, owned by the creator of its parent blog.
#[derive(Debug)]
pub struct PostAccount {
    /// The owner, copied from the parent blog at creation.
    pub authority: [u8; 32],
    /// The salt that completes this record's seed tuple.
    pub bump: u8,
    /// The parent blog's `post_count` at the moment of creation: a stable
    /// sequence number recording creation order.
    pub entry: u8,
    /// Post title, mutable within its reservation.
    pub title: Vec<u8>,
    /// Byte length reserved for `title` at creation; never changes.
    pub title_space: u32,
    /// Post body, mutable within its reservation.
    pub body: Vec<u8>,
    /// Byte length reserved for `body` at creation; never changes.
    pub body_space: u32,
}

impl BlogAccount {
    /// Well-formedness: every variable-length field fits its reservation.
    pub open spec fn wf(self) -> bool {
        &&& self.category@.len() <= self.category_space
        &&& self.subscribers_pubkeys@.len() <= self.vector_capacity
    }

    /// Exact byte footprint of a blog record created with the given
    /// subscriber capacity and a category of `category_len` bytes: the store
    /// header, each fixed-width field at its natural width, the
    /// length-prefixed category, and the subscriber list sized for its
    /// declared capacity rather than its occupancy.
    pub open spec fn spec_space(capacity: u16, category_len: nat) -> nat {
        (HEADER_BYTES + 1 + 1 + IDENTITY_BYTES + 2 + LEN_PREFIX_BYTES + category_len
            + LEN_PREFIX_BYTES + capacity * IDENTITY_BYTES) as nat
    }

    /// Total bytes to allocate for a new blog record, computed once, before
    /// creation.
    pub fn space(capacity: u16, category: &[u8]) -> (r: usize)
        requires
            Self::spec_space(capacity, category@.len()) <= usize::MAX,
        ensures
            r == Self::spec_space(capacity, category@.len()),
    {
        HEADER_BYTES + 1 + 1 + IDENTITY_BYTES + 2 + LEN_PREFIX_BYTES + category.len()
            + LEN_PREFIX_BYTES + (capacity as usize) * IDENTITY_BYTES
    }
}

impl PostAccount {
    /// Well-formedness: every variable-length field fits its reservation.
    pub open spec fn wf(self) -> bool {
        &&& self.title@.len() <= self.title_space
        &&& self.body@.len() <= self.body_space
    }

    /// Exact byte footprint of a post record created with a title of
    /// `title_len` bytes and a body of `body_len` bytes.
    pub open spec fn spec_space(title_len: nat, body_len: nat) -> nat {
        (HEADER_BYTES + IDENTITY_BYTES + 1 + 1 + LEN_PREFIX_BYTES + title_len
            + LEN_PREFIX_BYTES + body_len) as nat
    }

    /// Total bytes to allocate for a new post record, computed once, before
    /// creation.
    pub fn space(title: &[u8], body: &[u8]) -> (r: usize)
        requires
            Self::spec_space(title@.len(), body@.len()) <= usize::MAX,
        ensures
            r == Self::spec_space(title@.len(), body@.len()),
    {
        HEADER_BYTES + IDENTITY_BYTES + 1 + 1 + LEN_PREFIX_BYTES + title.len()
            + LEN_PREFIX_BYTES + body.len()
    }
}

} // verus!
