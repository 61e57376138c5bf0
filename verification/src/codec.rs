//! The persisted layout of a record: the store's fixed header, the
//! fixed-width fields in declaration order, each variable-length field behind
//! a four-byte little-endian length prefix, and the bounded subscriber list
//! behind its own length prefix.  The lemmas at the end tie the layout to the
//! space accountant: a well-formed record never overruns the bytes reserved
//! for it at creation.

use vstd::prelude::*;
use vstd::bytes::{
    lemma_auto_spec_u16_to_from_le_bytes, lemma_auto_spec_u32_to_from_le_bytes,
    spec_u16_to_le_bytes, spec_u32_to_le_bytes, u16_to_le_bytes, u32_to_le_bytes,
};
use crate::records::{BlogAccount, PostAccount};

verus! {

broadcast use vstd::array::group_array_axioms;

/// The store's bookkeeping prefix, modeled as eight zero bytes.
pub open spec fn header_bytes() -> Seq<u8> {
    seq![0u8, 0u8, 0u8, 0u8, 0u8, 0u8, 0u8, 0u8]
}

/// The concatenated bytes of a list of identities.
pub open spec fn identities_bytes(ids: Seq<[u8; 32]>) -> Seq<u8>
    decreases ids.len(),
{
    if ids.len() == 0 {
        Seq::empty()
    } else {
        identities_bytes(ids.drop_last()) + ids.last()@
    }
}

pub proof fn lemma_identities_bytes_len(ids: Seq<[u8; 32]>)
    ensures
        identities_bytes(ids).len() == 32 * ids.len(),
    decreases ids.len(),
{
    if ids.len() > 0 {
        lemma_identities_bytes_len(ids.drop_last());
    }
}

/// The persisted bytes of a blog record.
pub open spec fn spec_encode_blog(b: BlogAccount) -> Seq<u8> {
    header_bytes() + seq![b.bump, b.post_count] + b.authority@
        + spec_u16_to_le_bytes(b.vector_capacity)
        + spec_u32_to_le_bytes(b.category@.len() as u32) + b.category@
        + spec_u32_to_le_bytes(b.subscribers_pubkeys@.len() as u32)
        + identities_bytes(b.subscribers_pubkeys@)
}

/// The persisted bytes of a post record.
pub open spec fn spec_encode_post(p: PostAccount) -> Seq<u8> {
    header_bytes() + p.authority@ + seq![p.bump, p.entry]
        + spec_u32_to_le_bytes(p.title@.len() as u32) + p.title@
        + spec_u32_to_le_bytes(p.body@.len() as u32) + p.body@
}

fn append_bytes(out: &mut Vec<u8>, src: &Vec<u8>)
    ensures
        final(out)@ == old(out)@ + src@,
{
    let mut j: usize = 0;
    while j < src.len()
        invariant
            j <= src@.len(),
            out@ == old(out)@ + src@.subrange(0, j as int),
        decreases src@.len() - j,
    {
        out.push(src[j]);
        proof {
            assert(src@.subrange(0, j + 1 as int) =~= src@.subrange(0, j as int).push(src@[j as int]));
        }
        j += 1;
    }
    proof {
        assert(src@.subrange(0, src@.len() as int) =~= src@);
    }
}

fn append_identity(out: &mut Vec<u8>, id: &[u8; 32])
    ensures
        final(out)@ == old(out)@ + id@,
{
    let mut bytes = vstd::slice::slice_to_vec(id.as_slice());
    out.append(&mut bytes);
}

/// Write a blog record in the persisted layout.
pub fn encode_blog(b: &BlogAccount) -> (r: Vec<u8>)
    requires
        b.wf(),
    ensures
        r@ == spec_encode_blog(*b),
{
    let mut out: Vec<u8> = Vec::new();
    let mut h: usize = 0;
    while h < 8
        invariant
            h <= 8,
            out@ =~= header_bytes().subrange(0, h as int),
        decreases 8 - h,
    {
        out.push(0u8);
        proof {
            assert(header_bytes().subrange(0, h + 1 as int)
                =~= header_bytes().subrange(0, h as int).push(0u8));
        }
        h += 1;
    }
    proof {
        assert(header_bytes().subrange(0, 8) =~= header_bytes());
    }
    out.push(b.bump);
    out.push(b.post_count);
    append_identity(&mut out, &b.authority);
    let mut cap = u16_to_le_bytes(b.vector_capacity);
    out.append(&mut cap);
    let mut category_len = u32_to_le_bytes(b.category.len() as u32);
    out.append(&mut category_len);
    append_bytes(&mut out, &b.category);
    let mut subscriber_count = u32_to_le_bytes(b.subscribers_pubkeys.len() as u32);
    out.append(&mut subscriber_count);
    let ghost prefix = out@;
    let mut j: usize = 0;
    while j < b.subscribers_pubkeys.len()
        invariant
            j <= b.subscribers_pubkeys@.len(),
            out@ == prefix + identities_bytes(b.subscribers_pubkeys@.take(j as int)),
        decreases b.subscribers_pubkeys@.len() - j,
    {
        append_identity(&mut out, &b.subscribers_pubkeys[j]);
        proof {
            let ids = b.subscribers_pubkeys@;
            assert(ids.take(j + 1 as int).drop_last() =~= ids.take(j as int));
            assert(ids.take(j + 1 as int).last() == ids[j as int]);
        }
        j += 1;
    }
    proof {
        assert(b.subscribers_pubkeys@.take(b.subscribers_pubkeys@.len() as int)
            =~= b.subscribers_pubkeys@);
        assert(out@ =~= spec_encode_blog(*b));
    }
    out
}

/// Write a post record in the persisted layout.
pub fn encode_post(p: &PostAccount) -> (r: Vec<u8>)
    requires
        p.wf(),
    ensures
        r@ == spec_encode_post(*p),
{
    let mut out: Vec<u8> = Vec::new();
    let mut h: usize = 0;
    while h < 8
        invariant
            h <= 8,
            out@ =~= header_bytes().subrange(0, h as int),
        decreases 8 - h,
    {
        out.push(0u8);
        proof {
            assert(header_bytes().subrange(0, h + 1 as int)
                =~= header_bytes().subrange(0, h as int).push(0u8));
        }
        h += 1;
    }
    proof {
        assert(header_bytes().subrange(0, 8) =~= header_bytes());
    }
    append_identity(&mut out, &p.authority);
    out.push(p.bump);
    out.push(p.entry);
    let mut title_len = u32_to_le_bytes(p.title.len() as u32);
    out.append(&mut title_len);
    append_bytes(&mut out, &p.title);
    let mut body_len = u32_to_le_bytes(p.body.len() as u32);
    out.append(&mut body_len);
    append_bytes(&mut out, &p.body);
    proof {
        assert(out@ =~= spec_encode_post(*p));
    }
    out
}

pub proof fn lemma_encode_blog_len(b: BlogAccount)
    ensures
        spec_encode_blog(b).len() == 52 + b.category@.len() + 32 * b.subscribers_pubkeys@.len(),
{
    lemma_auto_spec_u16_to_from_le_bytes();
    lemma_auto_spec_u32_to_from_le_bytes();
    lemma_identities_bytes_len(b.subscribers_pubkeys@);
}

pub proof fn lemma_encode_post_len(p: PostAccount)
    ensures
        spec_encode_post(p).len() == 50 + p.title@.len() + p.body@.len(),
{
    lemma_auto_spec_u32_to_from_le_bytes();
}

/// A well-formed blog record's persisted encoding never overruns the byte
/// footprint reserved for it at creation, and fills that footprint exactly
/// when the category is at its reserved length and the subscriber list at its
/// declared capacity.
pub proof fn lemma_blog_encoding_fits(b: BlogAccount)
    requires
        b.wf(),
    ensures
        spec_encode_blog(b).len()
            <= BlogAccount::spec_space(b.vector_capacity, b.category_space as nat),
        b.category@.len() == b.category_space
            && b.subscribers_pubkeys@.len() == b.vector_capacity
            ==> spec_encode_blog(b).len()
                == BlogAccount::spec_space(b.vector_capacity, b.category_space as nat),
{
    lemma_encode_blog_len(b);
}

/// A well-formed post record's persisted encoding never overruns the byte
/// footprint reserved for it at creation, and fills that footprint exactly
/// when title and body are at their reserved lengths.
pub proof fn lemma_post_encoding_fits(p: PostAccount)
    requires
        p.wf(),
    ensures
        spec_encode_post(p).len()
            <= PostAccount::spec_space(p.title_space as nat, p.body_space as nat),
        p.title@.len() == p.title_space && p.body@.len() == p.body_space
            ==> spec_encode_post(p).len()
                == PostAccount::spec_space(p.title_space as nat, p.body_space as nat),
{
    lemma_encode_post_len(p);
}

} // verus!
