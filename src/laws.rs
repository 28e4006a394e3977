//! Properties of the store that hold across calls and for all inputs.

use vstd::prelude::*;
use crate::address::Address;
use crate::derivation::{derive_post_address_ensures, post_address, post_seed_bytes, post_seeds};
use crate::post::{slug_valid, text_error, BlogError, PostView};
use crate::store::{create_post_ensures, delete_ensures, edit_post_ensures};

verus! {

/// Two authors never share the seeds of a post under one slug, nor the bytes
/// that are hashed for its address. (That distinct hashed bytes give distinct
/// addresses is the hash's collision resistance, which is not proved here.)
pub proof fn lemma_seeds_differ_by_author(author1: Seq<u8>, author2: Seq<u8>, slug: Seq<u8>)
    requires
        author1.len() == 32,
        author2.len() == 32,
        author1 != author2,
    ensures
        post_seeds(author1, slug) != post_seeds(author2, slug),
        post_seed_bytes(author1, slug) != post_seed_bytes(author2, slug),
{
    assert(post_seeds(author1, slug)[1] == author1);
    assert(post_seeds(author2, slug)[1] == author2);
    let b1 = post_seed_bytes(author1, slug);
    let b2 = post_seed_bytes(author2, slug);
    if b1 == b2 {
        assert(author1 =~= b1.subrange(4, 36));
        assert(author2 =~= b2.subrange(4, 36));
    }
}

/// One author never has the same seeds, nor the same hashed bytes, under two
/// different slugs. (Distinct addresses would further need the hash to be
/// collision resistant, which is not proved here.)
pub proof fn lemma_seeds_differ_by_slug(author: Seq<u8>, slug1: Seq<u8>, slug2: Seq<u8>)
    requires
        author.len() == 32,
        slug1 != slug2,
    ensures
        post_seeds(author, slug1) != post_seeds(author, slug2),
        post_seed_bytes(author, slug1) != post_seed_bytes(author, slug2),
{
    assert(post_seeds(author, slug1)[2] == slug1);
    assert(post_seeds(author, slug2)[2] == slug2);
    let b1 = post_seed_bytes(author, slug1);
    let b2 = post_seed_bytes(author, slug2);
    if b1 == b2 {
        assert(slug1 =~= b1.subrange(36, b1.len() as int));
        assert(slug2 =~= b2.subrange(36, b2.len() as int));
    }
}

/// Deriving a post's address twice from the same program, author and slug
/// gives the same address and bump, or the same error.
pub proof fn lemma_derivation_deterministic(
    program_id: Seq<u8>,
    author: Seq<u8>,
    slug: Seq<u8>,
    r1: Result<(Address, u8), BlogError>,
    r2: Result<(Address, u8), BlogError>,
)
    requires
        derive_post_address_ensures(program_id, author, slug, r1),
        derive_post_address_ensures(program_id, author, slug, r2),
    ensures
        r1 is Ok <==> r2 is Ok,
        r1 matches Ok((a1, b1)) ==> (r2 matches Ok((a2, b2)) && a1@ == a2@ && b1 == b2),
        r1 is Err ==> r1 == r2,
{
}

/// An edit signed by anyone but the post's author is refused with
/// `Unauthorized` and changes nothing.
pub proof fn lemma_edit_by_non_author_refused(
    before: Map<Seq<u8>, PostView>,
    after: Map<Seq<u8>, PostView>,
    post_account: Seq<u8>,
    signer: Seq<u8>,
    title: Seq<char>,
    content: Seq<char>,
    r: Result<(), BlogError>,
)
    requires
        edit_post_ensures(before, after, post_account, signer, title, content, r),
        before.contains_key(post_account),
        before[post_account].author != signer,
    ensures
        r == Err::<(), BlogError>(BlogError::Unauthorized),
        after == before,
{
}

/// An edit by the post's author with texts within bounds replaces the title
/// and content, keeps the author, creation time and bump, and touches no
/// other post.
pub proof fn lemma_edit_by_author(
    before: Map<Seq<u8>, PostView>,
    after: Map<Seq<u8>, PostView>,
    post_account: Seq<u8>,
    signer: Seq<u8>,
    title: Seq<char>,
    content: Seq<char>,
    r: Result<(), BlogError>,
)
    requires
        edit_post_ensures(before, after, post_account, signer, title, content, r),
        before.contains_key(post_account),
        before[post_account].author == signer,
        text_error(title, content) is None,
    ensures
        r is Ok,
        after.contains_key(post_account),
        after[post_account].title == title,
        after[post_account].content == content,
        after[post_account].author == before[post_account].author,
        after[post_account].timestamp == before[post_account].timestamp,
        after[post_account].bump == before[post_account].bump,
        after.remove(post_account) == before.remove(post_account),
{
    assert(after.remove(post_account) =~= before.remove(post_account));
}

/// A delete signed by anyone but the post's author is refused with
/// `Unauthorized`, and the post can still be read as it was.
pub proof fn lemma_delete_by_non_author_refused(
    before: Map<Seq<u8>, PostView>,
    after: Map<Seq<u8>, PostView>,
    post_account: Seq<u8>,
    signer: Seq<u8>,
    r: Result<(), BlogError>,
)
    requires
        delete_ensures(before, after, post_account, signer, r),
        before.contains_key(post_account),
        before[post_account].author != signer,
    ensures
        r == Err::<(), BlogError>(BlogError::Unauthorized),
        after.contains_key(post_account),
        after[post_account] == before[post_account],
{
}

/// Once its author deletes a post, a create by the same author under the
/// same slug succeeds again at the same address, with a new post stamped
/// with the new time.
pub proof fn lemma_create_again_after_delete(
    posts0: Map<Seq<u8>, PostView>,
    posts1: Map<Seq<u8>, PostView>,
    posts2: Map<Seq<u8>, PostView>,
    program_id: Seq<u8>,
    author: Seq<u8>,
    slug: Seq<u8>,
    post_account: Seq<u8>,
    title: Seq<char>,
    content: Seq<char>,
    now: i64,
    deleted: Result<(), BlogError>,
    created: Result<Address, BlogError>,
)
    requires
        post_address(program_id, author, slug) matches Some((a, _)) && a == post_account,
        posts0.contains_key(post_account),
        posts0[post_account].author == author,
        delete_ensures(posts0, posts1, post_account, author, deleted),
        text_error(title, content) is None,
        slug_valid(slug),
        create_post_ensures(posts1, posts2, program_id, author, title, content, slug, now, created),
    ensures
        deleted is Ok,
        !posts1.contains_key(post_account),
        created matches Ok(a) && a@ == post_account,
        posts2.contains_key(post_account),
        posts2[post_account].author == author,
        posts2[post_account].title == title,
        posts2[post_account].content == content,
        posts2[post_account].timestamp == now,
{
}

} // verus!
