use blog_program::records::{BlogAccount, PostAccount};
use blog_program::store::{
    self, AddSubscriber, CreatePost, DeletePost, InitializeBlog, UpdateBlog, UpdatePost,
};
use blog_program::BlogError;

const OWNER: [u8; 32] = [7u8; 32];
const STRANGER: [u8; 32] = [8u8; 32];

fn fresh_blog(capacity: u16, category: &[u8]) -> BlogAccount {
    let ctx = InitializeBlog { authority: OWNER, blog_address_claimed: false };
    store::initialize_blog(&ctx, 254, capacity, category.to_vec()).unwrap()
}

fn fresh_post(title: &[u8], body: &[u8]) -> PostAccount {
    let mut ctx = CreatePost {
        blog_account: fresh_blog(0, b""),
        authority: OWNER,
        post_address_claimed: false,
    };
    store::create_post(&mut ctx, 200, title.to_vec(), body.to_vec()).unwrap()
}

#[test]
fn authorize_accepts_exactly_the_owner() {
    assert_eq!(blog_program::auth::authorize(&OWNER, &OWNER), Ok(()));
    assert_eq!(
        blog_program::auth::authorize(&STRANGER, &OWNER),
        Err(BlogError::Unauthorized)
    );
    let mut near_owner = OWNER;
    near_owner[31] = near_owner[31].wrapping_add(1);
    assert_eq!(
        blog_program::auth::authorize(&near_owner, &OWNER),
        Err(BlogError::Unauthorized)
    );
}

#[test]
fn initialize_blog_starts_empty() {
    let blog = fresh_blog(2, b"tech");
    assert_eq!(blog.bump, 254);
    assert_eq!(blog.post_count, 0);
    assert_eq!(blog.authority, OWNER);
    assert_eq!(blog.category, b"tech".to_vec());
    assert_eq!(blog.category_space, 4);
    assert_eq!(blog.vector_capacity, 2);
    assert!(blog.subscribers_pubkeys.is_empty());
}

#[test]
fn initialize_blog_fails_on_claimed_address() {
    let ctx = InitializeBlog { authority: OWNER, blog_address_claimed: true };
    let r = store::initialize_blog(&ctx, 254, 2, b"tech".to_vec());
    assert_eq!(r.unwrap_err(), BlogError::AddressCollision);
}

#[test]
fn subscribers_grow_to_capacity_and_no_further() {
    let subscriber_a = [1u8; 32];
    let subscriber_b = [2u8; 32];
    let subscriber_c = [3u8; 32];
    let blog = fresh_blog(2, b"tech");
    assert_eq!(blog.post_count, 0);
    assert!(blog.subscribers_pubkeys.is_empty());
    let mut ctx = AddSubscriber { blog_account: blog, authority: OWNER };
    assert_eq!(store::add_subscriber(&mut ctx, subscriber_a), Ok(()));
    assert_eq!(ctx.blog_account.subscribers_pubkeys, vec![subscriber_a]);
    assert_eq!(store::add_subscriber(&mut ctx, subscriber_b), Ok(()));
    assert_eq!(ctx.blog_account.subscribers_pubkeys, vec![subscriber_a, subscriber_b]);
    let r = store::add_subscriber(&mut ctx, subscriber_c);
    assert_eq!(r, Err(BlogError::CapacityExceeded));
    assert_eq!(ctx.blog_account.subscribers_pubkeys, vec![subscriber_a, subscriber_b]);
}

#[test]
fn posts_are_numbered_in_creation_order() {
    let mut ctx = CreatePost {
        blog_account: fresh_blog(0, b""),
        authority: OWNER,
        post_address_claimed: false,
    };
    let first = store::create_post(&mut ctx, 200, b"t1".to_vec(), b"b1".to_vec()).unwrap();
    assert_eq!(first.entry, 0);
    assert_eq!(ctx.blog_account.post_count, 1);
    let second = store::create_post(&mut ctx, 199, b"t2".to_vec(), b"b2".to_vec()).unwrap();
    assert_eq!(second.entry, 1);
    assert_eq!(ctx.blog_account.post_count, 2);
    assert_eq!(first.authority, OWNER);
    assert_eq!(first.title, b"t1".to_vec());
    assert_eq!(first.body, b"b1".to_vec());
    assert_eq!(first.title_space, 2);
    assert_eq!(first.body_space, 2);
}

#[test]
fn post_sequence_space_exhausts_at_its_one_byte_bound() {
    let mut blog = fresh_blog(0, b"");
    blog.post_count = 255;
    let mut ctx = CreatePost { blog_account: blog, authority: OWNER, post_address_claimed: false };
    let r = store::create_post(&mut ctx, 200, b"t".to_vec(), b"b".to_vec());
    assert_eq!(r.unwrap_err(), BlogError::AddressSpaceExhausted);
    assert_eq!(ctx.blog_account.post_count, 255);
}

#[test]
fn create_post_fails_on_claimed_address_without_advancing_the_counter() {
    let mut ctx = CreatePost {
        blog_account: fresh_blog(0, b""),
        authority: OWNER,
        post_address_claimed: true,
    };
    let r = store::create_post(&mut ctx, 200, b"t".to_vec(), b"b".to_vec());
    assert_eq!(r.unwrap_err(), BlogError::AddressCollision);
    assert_eq!(ctx.blog_account.post_count, 0);
}

#[test]
fn update_category_within_reservation_succeeds() {
    let mut ctx = UpdateBlog { blog_account: fresh_blog(2, b"tech"), authority: OWNER };
    assert_eq!(store::update_blog(&mut ctx, b"arts".to_vec()), Ok(()));
    assert_eq!(ctx.blog_account.category, b"arts".to_vec());
    assert_eq!(ctx.blog_account.category_space, 4);
    assert_eq!(store::update_blog(&mut ctx, b"a".to_vec()), Ok(()));
    assert_eq!(ctx.blog_account.category, b"a".to_vec());
}

#[test]
fn update_category_twice_with_same_content_is_idempotent() {
    let mut ctx = UpdateBlog { blog_account: fresh_blog(2, b"tech"), authority: OWNER };
    assert_eq!(store::update_blog(&mut ctx, b"arts".to_vec()), Ok(()));
    let after_first = ctx.blog_account.category.clone();
    let count_after_first = ctx.blog_account.post_count;
    let subs_after_first = ctx.blog_account.subscribers_pubkeys.clone();
    assert_eq!(store::update_blog(&mut ctx, b"arts".to_vec()), Ok(()));
    assert_eq!(ctx.blog_account.category, after_first);
    assert_eq!(ctx.blog_account.post_count, count_after_first);
    assert_eq!(ctx.blog_account.subscribers_pubkeys, subs_after_first);
}

#[test]
fn update_category_beyond_reservation_fails_and_changes_nothing() {
    let mut ctx = UpdateBlog { blog_account: fresh_blog(2, b"news"), authority: OWNER };
    let r = store::update_blog(&mut ctx, b"politics-and-economy-long-string".to_vec());
    assert_eq!(r.unwrap_err(), BlogError::SpaceOverrun);
    assert_eq!(ctx.blog_account.category, b"news".to_vec());
    assert_eq!(ctx.blog_account.category_space, 4);
}

#[test]
fn unauthorized_blog_mutations_fail_and_change_nothing() {
    let mut ctx = UpdateBlog { blog_account: fresh_blog(2, b"tech"), authority: STRANGER };
    let r = store::update_blog(&mut ctx, b"arts".to_vec());
    assert_eq!(r.unwrap_err(), BlogError::Unauthorized);
    assert_eq!(ctx.blog_account.category, b"tech".to_vec());

    let mut ctx = AddSubscriber { blog_account: fresh_blog(2, b"tech"), authority: STRANGER };
    let r = store::add_subscriber(&mut ctx, [1u8; 32]);
    assert_eq!(r.unwrap_err(), BlogError::Unauthorized);
    assert!(ctx.blog_account.subscribers_pubkeys.is_empty());

    let mut ctx = CreatePost {
        blog_account: fresh_blog(2, b"tech"),
        authority: STRANGER,
        post_address_claimed: false,
    };
    let r = store::create_post(&mut ctx, 200, b"t".to_vec(), b"b".to_vec());
    assert_eq!(r.unwrap_err(), BlogError::Unauthorized);
    assert_eq!(ctx.blog_account.post_count, 0);
}

#[test]
fn unauthorized_post_mutations_fail_and_change_nothing() {
    let post = fresh_post(b"t1", b"b1");
    let mut ctx = UpdatePost { post_account: post, authority: STRANGER };
    let r = store::update_post(&mut ctx, b"t2".to_vec(), b"b2".to_vec());
    assert_eq!(r.unwrap_err(), BlogError::Unauthorized);
    assert_eq!(ctx.post_account.title, b"t1".to_vec());
    assert_eq!(ctx.post_account.body, b"b1".to_vec());

    let post = fresh_post(b"t1", b"b1");
    let mut ctx = DeletePost { post_account: post, authority: STRANGER };
    let r = store::delete_post(&mut ctx, b"".to_vec(), b"".to_vec());
    assert_eq!(r.unwrap_err(), BlogError::Unauthorized);
    assert_eq!(ctx.post_account.title, b"t1".to_vec());
    assert_eq!(ctx.post_account.body, b"b1".to_vec());
}

#[test]
fn update_post_within_reservation_succeeds() {
    let post = fresh_post(b"title", b"a body");
    let mut ctx = UpdatePost { post_account: post, authority: OWNER };
    assert_eq!(store::update_post(&mut ctx, b"alter".to_vec(), b"b".to_vec()), Ok(()));
    assert_eq!(ctx.post_account.title, b"alter".to_vec());
    assert_eq!(ctx.post_account.body, b"b".to_vec());
    assert_eq!(ctx.post_account.title_space, 5);
    assert_eq!(ctx.post_account.body_space, 6);
}

#[test]
fn update_post_beyond_reservation_fails_and_changes_nothing() {
    let post = fresh_post(b"t1", b"b1");
    let mut ctx = UpdatePost { post_account: post, authority: OWNER };
    let r = store::update_post(&mut ctx, b"a longer title".to_vec(), b"b2".to_vec());
    assert_eq!(r.unwrap_err(), BlogError::SpaceOverrun);
    assert_eq!(ctx.post_account.title, b"t1".to_vec());
    assert_eq!(ctx.post_account.body, b"b1".to_vec());
    let r = store::update_post(&mut ctx, b"t2".to_vec(), b"a longer body".to_vec());
    assert_eq!(r.unwrap_err(), BlogError::SpaceOverrun);
    assert_eq!(ctx.post_account.body, b"b1".to_vec());
}

#[test]
fn delete_post_is_an_overwrite_within_the_reservation() {
    let post = fresh_post(b"t1", b"b1");
    let mut ctx = DeletePost { post_account: post, authority: OWNER };
    assert_eq!(store::delete_post(&mut ctx, b"".to_vec(), b"".to_vec()), Ok(()));
    assert_eq!(ctx.post_account.title, b"".to_vec());
    assert_eq!(ctx.post_account.body, b"".to_vec());
    assert_eq!(ctx.post_account.title_space, 2);
    assert_eq!(ctx.post_account.body_space, 2);
    let r = store::delete_post(&mut ctx, b"too long".to_vec(), b"".to_vec());
    assert_eq!(r.unwrap_err(), BlogError::SpaceOverrun);
}
