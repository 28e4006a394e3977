use anchor_lang::prelude::Pubkey;
use blog::{
    create_post, delete, derive_post_address, edit_post, Address, BlogError, CreatePost, Delete,
    EditPost, Post, PostStore,
};

fn program() -> Address {
    Address::new([7u8; 32])
}

fn alice() -> Address {
    Address::new([1u8; 32])
}

fn bob() -> Address {
    Address::new([2u8; 32])
}

fn create(
    store: &mut PostStore,
    author: Address,
    title: &str,
    content: &str,
    slug: &str,
    now: i64,
) -> Result<Address, BlogError> {
    create_post(
        store,
        &CreatePost { author },
        title.to_string(),
        content.to_string(),
        slug.to_string(),
        now,
    )
}

#[test]
fn space_is_fixed_worst_case_layout() {
    assert_eq!(Post::space(), 8 + 32 + (4 + 200) + (4 + 2000) + 8 + 1);
    assert_eq!(Post::space(), 2257);
}

#[test]
fn derivation_matches_program_derived_address() {
    let (addr, bump) = derive_post_address(&program(), &alice(), "s1").unwrap();
    let pid = Pubkey::new_from_array([7u8; 32]);
    let author = Pubkey::new_from_array([1u8; 32]);
    let (expected, expected_bump) =
        Pubkey::find_program_address(&[b"post", author.as_ref(), b"s1"], &pid);
    assert_eq!(addr.bytes, expected.to_bytes());
    assert_eq!(bump, expected_bump);
    assert!(addr != program());
    assert!(addr != alice());
}

#[test]
fn derivation_is_deterministic() {
    let (a1, b1) = derive_post_address(&program(), &alice(), "slug").unwrap();
    let (a2, b2) = derive_post_address(&program(), &alice(), "slug").unwrap();
    assert!(a1 == a2);
    assert_eq!(b1, b2);
}

#[test]
fn derivation_differs_by_author() {
    let (a1, _) = derive_post_address(&program(), &alice(), "slug").unwrap();
    let (a2, _) = derive_post_address(&program(), &bob(), "slug").unwrap();
    assert!(a1 != a2);
}

#[test]
fn derivation_differs_by_slug() {
    let (a1, _) = derive_post_address(&program(), &alice(), "one").unwrap();
    let (a2, _) = derive_post_address(&program(), &alice(), "two").unwrap();
    assert!(a1 != a2);
}

#[test]
fn derivation_differs_by_program() {
    let (a1, _) = derive_post_address(&program(), &alice(), "slug").unwrap();
    let (a2, _) = derive_post_address(&Address::new([8u8; 32]), &alice(), "slug").unwrap();
    assert!(a1 != a2);
}

#[test]
fn derivation_of_overlong_seed_finds_no_bump() {
    let slug = "x".repeat(33);
    assert_eq!(
        derive_post_address(&program(), &alice(), &slug).unwrap_err(),
        BlogError::BumpNotFound
    );
}

#[test]
fn title_of_fifty_chars_accepted() {
    let mut store = PostStore::new(program());
    let title = "t".repeat(50);
    let addr = create(&mut store, alice(), &title, "body", "a", 10).unwrap();
    assert_eq!(store.get(&addr).unwrap().title, title);
}

#[test]
fn title_of_fifty_one_chars_rejected() {
    let mut store = PostStore::new(program());
    let title = "t".repeat(51);
    assert_eq!(
        create(&mut store, alice(), &title, "body", "a", 10),
        Err(BlogError::TitleTooLong)
    );
}

#[test]
fn title_counts_chars_not_bytes() {
    let mut store = PostStore::new(program());
    assert!(create(&mut store, alice(), &"é".repeat(50), "body", "a", 10).is_ok());
    assert_eq!(
        create(&mut store, alice(), &"é".repeat(51), "body", "b", 10),
        Err(BlogError::TitleTooLong)
    );
}

#[test]
fn content_of_five_hundred_chars_accepted() {
    let mut store = PostStore::new(program());
    let content = "c".repeat(500);
    let addr = create(&mut store, alice(), "title", &content, "a", 10).unwrap();
    assert_eq!(store.get(&addr).unwrap().content, content);
}

#[test]
fn content_of_five_hundred_one_chars_rejected() {
    let mut store = PostStore::new(program());
    let content = "c".repeat(501);
    assert_eq!(
        create(&mut store, alice(), "title", &content, "a", 10),
        Err(BlogError::ContentTooLong)
    );
}

#[test]
fn title_is_checked_before_content() {
    let mut store = PostStore::new(program());
    assert_eq!(
        create(&mut store, alice(), &"t".repeat(51), &"c".repeat(501), "", 10),
        Err(BlogError::TitleTooLong)
    );
}

#[test]
fn empty_slug_rejected() {
    let mut store = PostStore::new(program());
    assert_eq!(
        create(&mut store, alice(), "title", "body", "", 10),
        Err(BlogError::SlugInvalid)
    );
}

#[test]
fn slug_of_thirty_three_bytes_rejected() {
    let mut store = PostStore::new(program());
    assert_eq!(
        create(&mut store, alice(), "title", "body", &"s".repeat(33), 10),
        Err(BlogError::SlugInvalid)
    );
}

#[test]
fn slug_of_thirty_two_bytes_accepted() {
    let mut store = PostStore::new(program());
    assert!(create(&mut store, alice(), "title", "body", &"s".repeat(32), 10).is_ok());
}

#[test]
fn slug_counts_bytes_not_chars() {
    let mut store = PostStore::new(program());
    assert!(create(&mut store, alice(), "title", "body", &"é".repeat(16), 10).is_ok());
    assert_eq!(
        create(&mut store, alice(), "title", "body", &"é".repeat(17), 10),
        Err(BlogError::SlugInvalid)
    );
}

#[test]
fn create_fills_every_field() {
    let mut store = PostStore::new(program());
    let addr = create(&mut store, alice(), "Hello", "World", "s1", 1234).unwrap();
    let (expected, bump) = derive_post_address(&program(), &alice(), "s1").unwrap();
    assert!(addr == expected);
    let post = store.get(&addr).unwrap();
    assert!(post.author == alice());
    assert_eq!(post.title, "Hello");
    assert_eq!(post.content, "World");
    assert_eq!(post.timestamp, 1234);
    assert_eq!(post.bump, bump);
}

#[test]
fn create_at_taken_address_rejected() {
    let mut store = PostStore::new(program());
    let addr = create(&mut store, alice(), "first", "one", "s1", 1).unwrap();
    assert_eq!(
        create(&mut store, alice(), "second", "two", "s1", 2),
        Err(BlogError::AccountInUse)
    );
    assert_eq!(store.get(&addr).unwrap().title, "first");
}

#[test]
fn same_slug_for_two_authors_gives_two_posts() {
    let mut store = PostStore::new(program());
    let a = create(&mut store, alice(), "from alice", "x", "s1", 1).unwrap();
    let b = create(&mut store, bob(), "from bob", "y", "s1", 2).unwrap();
    assert!(a != b);
    assert_eq!(store.get(&a).unwrap().title, "from alice");
    assert_eq!(store.get(&b).unwrap().title, "from bob");
}

#[test]
fn edit_by_non_author_rejected() {
    let mut store = PostStore::new(program());
    let addr = create(&mut store, alice(), "Hello", "World", "s1", 5).unwrap();
    let ctx = EditPost { post_account: addr, author: bob() };
    assert_eq!(
        edit_post(&mut store, &ctx, "Hacked".to_string(), "Owned".to_string()),
        Err(BlogError::Unauthorized)
    );
    let post = store.get(&addr).unwrap();
    assert_eq!(post.title, "Hello");
    assert_eq!(post.content, "World");
}

#[test]
fn edit_by_non_author_is_refused_before_lengths() {
    let mut store = PostStore::new(program());
    let addr = create(&mut store, alice(), "Hello", "World", "s1", 5).unwrap();
    let ctx = EditPost { post_account: addr, author: bob() };
    assert_eq!(
        edit_post(&mut store, &ctx, "t".repeat(51), "World".to_string()),
        Err(BlogError::Unauthorized)
    );
}

#[test]
fn edit_by_author_keeps_author_time_and_bump() {
    let mut store = PostStore::new(program());
    let addr = create(&mut store, alice(), "Hello", "World", "s1", 5).unwrap();
    let bump = store.get(&addr).unwrap().bump;
    let ctx = EditPost { post_account: addr, author: alice() };
    assert_eq!(
        edit_post(&mut store, &ctx, "New".to_string(), "Text".to_string()),
        Ok(())
    );
    let post = store.get(&addr).unwrap();
    assert_eq!(post.title, "New");
    assert_eq!(post.content, "Text");
    assert!(post.author == alice());
    assert_eq!(post.timestamp, 5);
    assert_eq!(post.bump, bump);
}

#[test]
fn edit_checks_lengths() {
    let mut store = PostStore::new(program());
    let addr = create(&mut store, alice(), "Hello", "World", "s1", 5).unwrap();
    let ctx = EditPost { post_account: addr, author: alice() };
    assert_eq!(
        edit_post(&mut store, &ctx, "t".repeat(51), "World".to_string()),
        Err(BlogError::TitleTooLong)
    );
    assert_eq!(
        edit_post(&mut store, &ctx, "Hello".to_string(), "c".repeat(501)),
        Err(BlogError::ContentTooLong)
    );
    assert_eq!(
        edit_post(&mut store, &ctx, "t".repeat(50), "c".repeat(500)),
        Ok(())
    );
    assert_eq!(store.get(&addr).unwrap().title, "t".repeat(50));
}

#[test]
fn edit_of_missing_post_rejected() {
    let mut store = PostStore::new(program());
    let ctx = EditPost { post_account: Address::new([9u8; 32]), author: alice() };
    assert_eq!(
        edit_post(&mut store, &ctx, "a".to_string(), "b".to_string()),
        Err(BlogError::AccountNotFound)
    );
}

#[test]
fn delete_by_non_author_rejected() {
    let mut store = PostStore::new(program());
    let addr = create(&mut store, alice(), "Hello", "World", "s1", 5).unwrap();
    let ctx = Delete { post_account: addr, author: bob() };
    assert_eq!(delete(&mut store, &ctx), Err(BlogError::Unauthorized));
    let post = store.get(&addr).unwrap();
    assert_eq!(post.title, "Hello");
    assert_eq!(post.content, "World");
}

#[test]
fn delete_of_missing_post_rejected() {
    let mut store = PostStore::new(program());
    let ctx = Delete { post_account: Address::new([9u8; 32]), author: alice() };
    assert_eq!(delete(&mut store, &ctx), Err(BlogError::AccountNotFound));
}

#[test]
fn delete_then_create_again() {
    let mut store = PostStore::new(program());
    let addr = create(&mut store, alice(), "Hello", "World", "s1", 5).unwrap();
    let ctx = Delete { post_account: addr, author: alice() };
    assert_eq!(delete(&mut store, &ctx), Ok(()));
    assert!(store.get(&addr).is_none());
    let again = create(&mut store, alice(), "Again", "Fresh", "s1", 99).unwrap();
    assert!(again == addr);
    let post = store.get(&again).unwrap();
    assert_eq!(post.title, "Again");
    assert_eq!(post.timestamp, 99);
}

#[test]
fn delete_leaves_other_posts() {
    let mut store = PostStore::new(program());
    let a = create(&mut store, alice(), "one", "x", "s1", 1).unwrap();
    let b = create(&mut store, alice(), "two", "y", "s2", 2).unwrap();
    let c = create(&mut store, bob(), "three", "z", "s1", 3).unwrap();
    assert_eq!(delete(&mut store, &Delete { post_account: b, author: alice() }), Ok(()));
    assert!(store.get(&b).is_none());
    assert_eq!(store.get(&a).unwrap().title, "one");
    assert_eq!(store.get(&c).unwrap().title, "three");
}

#[test]
fn end_to_end_lifecycle() {
    let mut store = PostStore::new(program());
    let a = alice();
    let addr = create(&mut store, a, "Hello", "World", "s1", 100).unwrap();
    {
        let post = store.get(&addr).unwrap();
        assert!(post.author == a);
        assert_eq!(post.title, "Hello");
    }
    let edit = EditPost { post_account: addr, author: a };
    assert_eq!(
        edit_post(&mut store, &edit, "Hi".to_string(), "World".to_string()),
        Ok(())
    );
    {
        let post = store.get(&addr).unwrap();
        assert_eq!(post.title, "Hi");
        assert_eq!(post.content, "World");
    }
    assert_eq!(delete(&mut store, &Delete { post_account: addr, author: a }), Ok(()));
    assert!(store.get(&addr).is_none());
    let again = create(&mut store, a, "Hello", "World", "s1", 200).unwrap();
    assert!(again == addr);
    assert_eq!(store.get(&again).unwrap().timestamp, 200);
}

#[test]
fn longest_texts_fill_space_exactly() {
    let mut store = PostStore::new(program());
    let title = "😀".repeat(50);
    let content = "😀".repeat(500);
    let addr = create(&mut store, alice(), &title, &content, "wide", 1).unwrap();
    let post = store.get(&addr).unwrap();
    let serialized = 8 + 32 + (4 + post.title.len()) + (4 + post.content.len()) + 8 + 1;
    assert_eq!(serialized, Post::space());
}
