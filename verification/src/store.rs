//! The record lifecycle operations.  Each handler receives, from the dispatch
//! boundary, a context holding the touched record, the authenticated signer
//! identity, and — for creations — whether the account store already holds a
//! record at the derived address (the collision check).  Every operation is
//! all-or-nothing: when any validation fails, the error is returned and every
//! record is left exactly as it was.

use vstd::prelude::*;
use crate::auth::authorize;
use crate::records::{BlogAccount, PostAccount};
use crate::BlogError;

verus! {

broadcast use vstd::array::group_array_axioms;

/// Inputs to blog creation: the signer whose identity seeds the new record's
/// address, and the store's report on whether that address is already taken.
pub struct InitializeBlog {
    /// The authenticated signer; becomes the new record's owner, and is the
    /// identity used as a seed component of the record's address.
    pub authority: [u8; 32],
    /// Whether the account store already holds a record at the derived blog
    /// address.
    pub blog_address_claimed: bool,
}

/// Inputs to a category update: the touched blog record and the signer.
pub struct UpdateBlog {
    pub blog_account: BlogAccount,
    /// The authenticated signer.
    pub authority: [u8; 32],
}

/// Inputs to a subscriber append: the touched blog record and the signer.
pub struct AddSubscriber {
    pub blog_account: BlogAccount,
    /// The authenticated signer.
    pub authority: [u8; 32],
}

/// Inputs to post creation: the parent blog, the signer, and the store's
/// report on the derived post address.
pub struct CreatePost {
    pub blog_account: BlogAccount,
    /// The authenticated signer.
    pub authority: [u8; 32],
    /// Whether the account store already holds a record at the post address
    /// derived from the parent blog's address and its current `post_count`.
    pub post_address_claimed: bool,
}

/// Inputs to a post rewrite: the touched post record and the signer.
pub struct UpdatePost {
    pub post_account: PostAccount,
    /// The authenticated signer.
    pub authority: [u8; 32],
}

/// Inputs to a post overwrite-delete: the touched post record and the signer.
pub struct DeletePost {
    pub post_account: PostAccount,
    /// The authenticated signer.
    pub authority: [u8; 32],
}

/// What blog creation returns for given inputs: a collision aborts, and
/// otherwise the new record starts with no posts, no subscribers, the signer
/// as owner, and the category's current length as its reservation.
pub open spec fn initialize_blog_rel(
    ctx: InitializeBlog,
    r: Result<BlogAccount, BlogError>,
    bump: u8,
    vector_capacity: u16,
    category: Vec<u8>,
) -> bool {
    if ctx.blog_address_claimed {
        r == Err::<BlogAccount, BlogError>(BlogError::AddressCollision)
    } else {
        match r {
            Ok(b) => {
                &&& b.bump == bump
                &&& b.post_count == 0
                &&& b.authority == ctx.authority
                &&& b.category == category
                &&& b.category_space == category@.len()
                &&& b.vector_capacity == vector_capacity
                &&& b.subscribers_pubkeys@ == Seq::<[u8; 32]>::empty()
            },
            Err(_) => false,
        }
    }
}

/// How a category update relates the record before and after the call.
pub open spec fn update_blog_rel(
    pre: BlogAccount,
    post: BlogAccount,
    r: Result<(), BlogError>,
    signer: [u8; 32],
    category: Vec<u8>,
) -> bool {
    if pre.authority@ != signer@ {
        r == Err::<(), BlogError>(BlogError::Unauthorized) && post == pre
    } else if category@.len() > pre.category_space {
        r == Err::<(), BlogError>(BlogError::SpaceOverrun) && post == pre
    } else {
        r == Ok::<(), BlogError>(()) && post == BlogAccount { category, ..pre }
    }
}

/// How a subscriber append relates the record before and after the call.
pub open spec fn add_subscriber_rel(
    pre: BlogAccount,
    post: BlogAccount,
    r: Result<(), BlogError>,
    signer: [u8; 32],
    sub_pubkey: [u8; 32],
) -> bool {
    if pre.authority@ != signer@ {
        r == Err::<(), BlogError>(BlogError::Unauthorized) && post == pre
    } else if pre.subscribers_pubkeys@.len() >= pre.vector_capacity {
        r == Err::<(), BlogError>(BlogError::CapacityExceeded) && post == pre
    } else {
        &&& r == Ok::<(), BlogError>(())
        &&& post.subscribers_pubkeys@ == pre.subscribers_pubkeys@.push(sub_pubkey)
        &&& post.bump == pre.bump
        &&& post.post_count == pre.post_count
        &&& post.authority == pre.authority
        &&& post.category == pre.category
        &&& post.category_space == pre.category_space
        &&& post.vector_capacity == pre.vector_capacity
    }
}

/// How post creation relates the context before and after the call and the
/// returned record.  A new post copies the owner from the parent blog's
/// signer, records the parent's `post_count` as its immutable sequence
/// number, reserves exactly the given title and body lengths, and advances
/// the parent's counter by one; any failure leaves the parent untouched.
pub open spec fn create_post_rel(
    pre: CreatePost,
    post: CreatePost,
    r: Result<PostAccount, BlogError>,
    bump: u8,
    title: Vec<u8>,
    body: Vec<u8>,
) -> bool {
    if pre.blog_account.authority@ != pre.authority@ {
        r == Err::<PostAccount, BlogError>(BlogError::Unauthorized) && post == pre
    } else if pre.blog_account.post_count == 255 {
        r == Err::<PostAccount, BlogError>(BlogError::AddressSpaceExhausted) && post == pre
    } else if pre.post_address_claimed {
        r == Err::<PostAccount, BlogError>(BlogError::AddressCollision) && post == pre
    } else {
        match r {
            Ok(p) => {
                &&& p.authority == pre.authority
                &&& p.bump == bump
                &&& p.entry == pre.blog_account.post_count
                &&& p.title == title
                &&& p.title_space == title@.len()
                &&& p.body == body
                &&& p.body_space == body@.len()
                &&& post.blog_account == BlogAccount {
                    post_count: (pre.blog_account.post_count + 1) as u8,
                    ..pre.blog_account
                }
                &&& post.authority == pre.authority
                &&& post.post_address_claimed == pre.post_address_claimed
            },
            Err(_) => false,
        }
    }
}

/// How a post rewrite relates the record before and after the call: both
/// variable-length fields are re-validated against the reservation made at
/// creation.
pub open spec fn update_post_rel(
    pre: PostAccount,
    post: PostAccount,
    r: Result<(), BlogError>,
    signer: [u8; 32],
    title: Vec<u8>,
    body: Vec<u8>,
) -> bool {
    if pre.authority@ != signer@ {
        r == Err::<(), BlogError>(BlogError::Unauthorized) && post == pre
    } else if title@.len() > pre.title_space || body@.len() > pre.body_space {
        r == Err::<(), BlogError>(BlogError::SpaceOverrun) && post == pre
    } else {
        r == Ok::<(), BlogError>(()) && post == PostAccount { title, body, ..pre }
    }
}

/// Create the blog record of `ctx.authority`.  Fails with `AddressCollision`
/// when the derived address is already claimed — owners get at most one blog.
pub fn initialize_blog(
    ctx: &InitializeBlog,
    blog_account_bump: u8,
    vector_capacity: u16,
    category: Vec<u8>,
) -> (r: Result<BlogAccount, BlogError>)
    requires
        category@.len() <= u32::MAX,
    ensures
        initialize_blog_rel(*ctx, r, blog_account_bump, vector_capacity, category),
        r matches Ok(b) ==> b.wf(),
{
    if ctx.blog_address_claimed {
        return Err(BlogError::AddressCollision);
    }
    let category_space = category.len() as u32;
    Ok(BlogAccount {
        bump: blog_account_bump,
        post_count: 0,
        authority: ctx.authority,
        category,
        category_space,
        vector_capacity,
        subscribers_pubkeys: Vec::new(),
    })
}

/// Replace the blog's category.  Only the owner may do so, and the new
/// content must fit the bytes reserved at creation.
pub fn update_blog(ctx: &mut UpdateBlog, category: Vec<u8>) -> (r: Result<(), BlogError>)
    ensures
        update_blog_rel(old(ctx).blog_account, final(ctx).blog_account, r, old(ctx).authority, category),
        final(ctx).authority == old(ctx).authority,
        old(ctx).blog_account.wf() ==> final(ctx).blog_account.wf(),
{
    match authorize(&ctx.authority, &ctx.blog_account.authority) {
        Err(e) => {
            return Err(e);
        },
        Ok(()) => {},
    }
    if category.len() > ctx.blog_account.category_space as usize {
        return Err(BlogError::SpaceOverrun);
    }
    ctx.blog_account.category = category;
    Ok(())
}

/// Append a subscriber to the blog.  Only the owner may do so, and the list
/// is bounded by the capacity declared at creation.
pub fn add_subscriber(ctx: &mut AddSubscriber, sub_pubkey: [u8; 32]) -> (r: Result<(), BlogError>)
    ensures
        add_subscriber_rel(old(ctx).blog_account, final(ctx).blog_account, r, old(ctx).authority, sub_pubkey),
        final(ctx).authority == old(ctx).authority,
        old(ctx).blog_account.wf() ==> final(ctx).blog_account.wf(),
{
    match authorize(&ctx.authority, &ctx.blog_account.authority) {
        Err(e) => {
            return Err(e);
        },
        Ok(()) => {},
    }
    if ctx.blog_account.subscribers_pubkeys.len() >= ctx.blog_account.vector_capacity as usize {
        return Err(BlogError::CapacityExceeded);
    }
    ctx.blog_account.subscribers_pubkeys.push(sub_pubkey);
    Ok(())
}

/// Create the next post of the blog.  Only the blog owner may post; the
/// one-byte sequencing seed bounds a blog at 255 posts; and a failed creation
/// never advances `post_count`.
pub fn create_post(
    ctx: &mut CreatePost,
    post_account_bump: u8,
    title: Vec<u8>,
    body: Vec<u8>,
) -> (r: Result<PostAccount, BlogError>)
    requires
        title@.len() <= u32::MAX,
        body@.len() <= u32::MAX,
    ensures
        create_post_rel(*old(ctx), *final(ctx), r, post_account_bump, title, body),
        r matches Ok(p) ==> p.wf(),
{
    match authorize(&ctx.authority, &ctx.blog_account.authority) {
        Err(e) => {
            return Err(e);
        },
        Ok(()) => {},
    }
    if ctx.blog_account.post_count == 255 {
        return Err(BlogError::AddressSpaceExhausted);
    }
    if ctx.post_address_claimed {
        return Err(BlogError::AddressCollision);
    }
    let title_space = title.len() as u32;
    let body_space = body.len() as u32;
    let post = PostAccount {
        authority: ctx.authority,
        bump: post_account_bump,
        entry: ctx.blog_account.post_count,
        title,
        title_space,
        body,
        body_space,
    };
    ctx.blog_account.post_count = ctx.blog_account.post_count + 1;
    Ok(post)
}

/// Rewrite the post's title and body within their reservations.  Only the
/// owner may do so.
pub fn update_post(ctx: &mut UpdatePost, title: Vec<u8>, body: Vec<u8>) -> (r: Result<(), BlogError>)
    ensures
        update_post_rel(old(ctx).post_account, final(ctx).post_account, r, old(ctx).authority, title, body),
        final(ctx).authority == old(ctx).authority,
        old(ctx).post_account.wf() ==> final(ctx).post_account.wf(),
{
    match authorize(&ctx.authority, &ctx.post_account.authority) {
        Err(e) => {
            return Err(e);
        },
        Ok(()) => {},
    }
    if title.len() > ctx.post_account.title_space as usize {
        return Err(BlogError::SpaceOverrun);
    }
    if body.len() > ctx.post_account.body_space as usize {
        return Err(BlogError::SpaceOverrun);
    }
    ctx.post_account.title = title;
    ctx.post_account.body = body;
    Ok(())
}

/// "Delete" a post: this model has no true deallocation, so deletion is an
/// overwrite in place — by convention with sentinel or empty content — under
/// exactly the contract of a rewrite.
pub fn delete_post(ctx: &mut DeletePost, title: Vec<u8>, body: Vec<u8>) -> (r: Result<(), BlogError>)
    ensures
        update_post_rel(old(ctx).post_account, final(ctx).post_account, r, old(ctx).authority, title, body),
        final(ctx).authority == old(ctx).authority,
        old(ctx).post_account.wf() ==> final(ctx).post_account.wf(),
{
    match authorize(&ctx.authority, &ctx.post_account.authority) {
        Err(e) => {
            return Err(e);
        },
        Ok(()) => {},
    }
    if title.len() > ctx.post_account.title_space as usize {
        return Err(BlogError::SpaceOverrun);
    }
    if body.len() > ctx.post_account.body_space as usize {
        return Err(BlogError::SpaceOverrun);
    }
    ctx.post_account.title = title;
    ctx.post_account.body = body;
    Ok(())
}

/// Two posts created in sequence under one blog carry consecutive sequence
/// numbers: the first records the parent's counter, the second records the
/// counter advanced by exactly one — entry numbers mirror creation order with
/// no gaps and no duplicates.
pub proof fn lemma_post_entries_sequential(
    c0: CreatePost,
    c1: CreatePost,
    c2: CreatePost,
    p1: PostAccount,
    p2: PostAccount,
    bump1: u8,
    bump2: u8,
    title1: Vec<u8>,
    body1: Vec<u8>,
    title2: Vec<u8>,
    body2: Vec<u8>,
)
    requires
        create_post_rel(c0, c1, Ok(p1), bump1, title1, body1),
        create_post_rel(c1, c2, Ok(p2), bump2, title2, body2),
    ensures
        p1.entry == c0.blog_account.post_count,
        p2.entry == p1.entry + 1,
{
}

/// Updating the category twice with the same signer and the same content
/// gives the same outcome both times and leaves the record after the second
/// call exactly as it stood after the first.
pub proof fn lemma_update_category_idempotent(
    b0: BlogAccount,
    b1: BlogAccount,
    b2: BlogAccount,
    r1: Result<(), BlogError>,
    r2: Result<(), BlogError>,
    signer: [u8; 32],
    category: Vec<u8>,
)
    requires
        update_blog_rel(b0, b1, r1, signer, category),
        update_blog_rel(b1, b2, r2, signer, category),
    ensures
        b2 == b1,
        r2 == r1,
{
}

} // verus!
