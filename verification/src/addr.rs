//! Address derivation: every record's storage address is a deterministic,
//! program-owned function of a domain-separation tag and a tuple of seed
//! byte-sequences, together with a one-byte salt (the "bump") discovered by
//! the derivation search.  Holding the right seed tuple is what it means to
//! "hold" a record; the verification functions below let a caller confirm
//! that a claimed address and salt really belong to a given seed tuple.

use vstd::prelude::*;
use crate::auth::bytes32_eq;

verus! {

broadcast use vstd::array::group_array_axioms;

/// Domain-separation tag for blog records: the bytes of "blog".
pub open spec fn blog_tag() -> Seq<u8> {
    seq![98u8, 108u8, 111u8, 103u8]
}

/// Domain-separation tag for post records: the bytes of "post".
pub open spec fn post_tag() -> Seq<u8> {
    seq![112u8, 111u8, 115u8, 116u8]
}

/// The seed tuple from which the blog record of `owner` draws its address.
pub open spec fn blog_seeds(owner: Seq<u8>) -> Seq<Seq<u8>> {
    seq![blog_tag(), owner]
}

/// The seed tuple for post number `entry` of the blog stored at
/// `blog_address`: the parent's address chains posts to their blog, and the
/// one-byte sequence number separates the posts of one blog from each other.
pub open spec fn post_seeds(blog_address: Seq<u8>, entry: u8) -> Seq<Seq<u8>> {
    seq![post_tag(), blog_address, seq![entry]]
}

/// The address and salt that the platform's program-derived-address search
/// yields for a seed tuple under a program id, or `None` in the
/// statistically improbable case that no salt yields a valid address.  The
/// search is a pure function of the seeds and the program id.
pub uninterp spec fn pda_of(program_id: Seq<u8>, seeds: Seq<Seq<u8>>) -> Option<(Seq<u8>, u8)>;

/// The mathematical value of a seed list.
pub open spec fn seeds_view(seeds: Seq<Vec<u8>>) -> Seq<Seq<u8>> {
    seeds.map_values(|s: Vec<u8>| s@)
}

/// The mathematical value of a derivation outcome.
pub open spec fn derived_view(r: Option<([u8; 32], u8)>) -> Option<(Seq<u8>, u8)> {
    match r {
        Some((address, salt)) => Some((address@, salt)),
        None => None,
    }
}

/// Relies on `Pubkey::try_find_program_address` as anchor_lang re-exports it
/// (solana-address): the returned address and bump seed are a function of the
/// seed slices and the program id alone, and the search reports `None` when
/// no bump seed yields a valid derived address.
#[verifier::external_body]
fn find_program_address(program_id: &[u8; 32], seeds: &Vec<Vec<u8>>) -> (r: Option<([u8; 32], u8)>)
    ensures
        derived_view(r) == pda_of(program_id@, seeds_view(seeds@)),
{
    let seed_refs: Vec<&[u8]> = seeds.iter().map(|s| s.as_slice()).collect();
    let pid = anchor_lang::prelude::Pubkey::new_from_array(*program_id);
    anchor_lang::prelude::Pubkey::try_find_program_address(&seed_refs, &pid)
        .map(|(address, bump)| (address.to_bytes(), bump))
}

fn blog_tag_bytes() -> (r: Vec<u8>)
    ensures
        r@ == blog_tag(),
{
    let mut v: Vec<u8> = Vec::new();
    v.push(98u8);
    v.push(108u8);
    v.push(111u8);
    v.push(103u8);
    proof {
        assert(v@ =~= blog_tag());
    }
    v
}

fn post_tag_bytes() -> (r: Vec<u8>)
    ensures
        r@ == post_tag(),
{
    let mut v: Vec<u8> = Vec::new();
    v.push(112u8);
    v.push(111u8);
    v.push(115u8);
    v.push(116u8);
    proof {
        assert(v@ =~= post_tag());
    }
    v
}

/// Derive the address and salt of the blog record owned by `authority`.
pub fn derive_blog_address(program_id: &[u8; 32], authority: &[u8; 32]) -> (r: Option<([u8; 32], u8)>)
    ensures
        derived_view(r) == pda_of(program_id@, blog_seeds(authority@)),
{
    let mut seeds: Vec<Vec<u8>> = Vec::new();
    seeds.push(blog_tag_bytes());
    seeds.push(vstd::slice::slice_to_vec(authority.as_slice()));
    proof {
        assert(seeds_view(seeds@) =~= blog_seeds(authority@));
    }
    find_program_address(program_id, &seeds)
}

/// Derive the address and salt of post number `entry` of the blog stored at
/// `blog_address`.
pub fn derive_post_address(
    program_id: &[u8; 32],
    blog_address: &[u8; 32],
    entry: u8,
) -> (r: Option<([u8; 32], u8)>)
    ensures
        derived_view(r) == pda_of(program_id@, post_seeds(blog_address@, entry)),
{
    let mut seeds: Vec<Vec<u8>> = Vec::new();
    seeds.push(post_tag_bytes());
    seeds.push(vstd::slice::slice_to_vec(blog_address.as_slice()));
    let mut entry_seed: Vec<u8> = Vec::new();
    entry_seed.push(entry);
    seeds.push(entry_seed);
    proof {
        assert(seeds_view(seeds@) =~= post_seeds(blog_address@, entry));
    }
    find_program_address(program_id, &seeds)
}

/// Off-path verification: confirm that `claimed` together with `claimed_salt`
/// is exactly what derivation yields for the blog of `authority`.
pub fn verify_blog_address(
    program_id: &[u8; 32],
    authority: &[u8; 32],
    claimed: &[u8; 32],
    claimed_salt: u8,
) -> (r: bool)
    ensures
        r == (pda_of(program_id@, blog_seeds(authority@)) == Some((claimed@, claimed_salt))),
{
    match derive_blog_address(program_id, authority) {
        Some((address, salt)) => bytes32_eq(&address, claimed) && salt == claimed_salt,
        None => false,
    }
}

/// Off-path verification: confirm that `claimed` together with `claimed_salt`
/// is exactly what derivation yields for post number `entry` of the blog at
/// `blog_address`.
pub fn verify_post_address(
    program_id: &[u8; 32],
    blog_address: &[u8; 32],
    entry: u8,
    claimed: &[u8; 32],
    claimed_salt: u8,
) -> (r: bool)
    ensures
        r == (pda_of(program_id@, post_seeds(blog_address@, entry)) == Some((claimed@, claimed_salt))),
{
    match derive_post_address(program_id, blog_address, entry) {
        Some((address, salt)) => bytes32_eq(&address, claimed) && salt == claimed_salt,
        None => false,
    }
}

/// Deriving a blog address twice from the same program id and owner yields
/// identical output: the derivation has no hidden state.
pub proof fn lemma_blog_address_deterministic(
    program_id: Seq<u8>,
    owner: Seq<u8>,
    r1: Option<(Seq<u8>, u8)>,
    r2: Option<(Seq<u8>, u8)>,
)
    requires
        r1 == pda_of(program_id, blog_seeds(owner)),
        r2 == pda_of(program_id, blog_seeds(owner)),
    ensures
        r1 == r2,
{
}

/// Blog seed tuples of distinct owners are distinct: each owner's blog is
/// addressed under that owner's own seed tuple.
pub proof fn lemma_blog_seeds_distinct(owner1: Seq<u8>, owner2: Seq<u8>)
    requires
        owner1 != owner2,
    ensures
        blog_seeds(owner1) != blog_seeds(owner2),
{
    if blog_seeds(owner1) == blog_seeds(owner2) {
        assert(blog_seeds(owner1)[1] == blog_seeds(owner2)[1]);
    }
}

/// Post seed tuples with distinct sequence numbers are distinct: the one-byte
/// sequencing seed separates every two posts of one blog before any hashing
/// happens.
pub proof fn lemma_post_seeds_distinct(blog_address: Seq<u8>, k1: u8, k2: u8)
    requires
        k1 != k2,
    ensures
        post_seeds(blog_address, k1) != post_seeds(blog_address, k2),
{
    if post_seeds(blog_address, k1) == post_seeds(blog_address, k2) {
        assert(post_seeds(blog_address, k1)[2] == post_seeds(blog_address, k2)[2]);
        assert(seq![k1][0] == seq![k2][0]);
    }
}

} // verus!
