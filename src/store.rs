//! The accounts that hold posts, and the three instructions that change them.

use vstd::prelude::*;
use crate::address::Address;
use crate::derivation::{derive_post_address, post_address};
use crate::post::{
    check_owner, post_wf, slug_valid, text_error, utf8_bytes, validate_slug, validate_text,
    BlogError, Post, PostView,
};

verus! {

/// The accounts of a create instruction: the signer becomes the post's author
/// and pays for its storage.
#[derive(Clone, Copy, Debug)]
pub struct CreatePost {
    pub author: Address,
}

/// The accounts of an edit instruction: the post and the signer.
#[derive(Clone, Copy, Debug)]
pub struct EditPost {
    pub post_account: Address,
    pub author: Address,
}

/// The accounts of a delete instruction: the post and the signer, who gets
/// the post's storage back.
#[derive(Clone, Copy, Debug)]
pub struct Delete {
    pub post_account: Address,
    pub author: Address,
}

/// The posts that one program keeps, each at its own address.
pub struct PostStore {
    program_id: Address,
    accounts: Vec<(Address, Post)>,
}

spec fn keys_unique(s: Seq<(Address, Post)>) -> bool {
    forall|i: int, j: int|
        #![trigger s[i], s[j]]
        0 <= i < s.len() && 0 <= j < s.len() && i != j ==> s[i].0@ != s[j].0@
}

spec fn holds_key(s: Seq<(Address, Post)>, k: Seq<u8>) -> bool {
    exists|i: int| 0 <= i < s.len() && #[trigger] s[i].0@ == k
}

spec fn map_of(s: Seq<(Address, Post)>) -> Map<Seq<u8>, PostView> {
    Map::new(
        |k: Seq<u8>| holds_key(s, k),
        |k: Seq<u8>| s[choose|i: int| 0 <= i < s.len() && #[trigger] s[i].0@ == k].1@,
    )
}

proof fn lemma_map_of_at(s: Seq<(Address, Post)>, i: int)
    requires
        keys_unique(s),
        0 <= i < s.len(),
    ensures
        map_of(s).contains_key(s[i].0@),
        map_of(s)[s[i].0@] == s[i].1@,
{
    let k = s[i].0@;
    assert(holds_key(s, k));
    let j = choose|j: int| 0 <= j < s.len() && #[trigger] s[j].0@ == k;
    assert(s[j].0@ == s[i].0@);
}

proof fn lemma_map_of_push(s: Seq<(Address, Post)>, e: (Address, Post))
    requires
        keys_unique(s),
        !map_of(s).contains_key(e.0@),
    ensures
        keys_unique(s.push(e)),
        map_of(s.push(e)) == map_of(s).insert(e.0@, e.1@),
{
    let t = s.push(e);
    assert forall|i: int| 0 <= i < s.len() implies #[trigger] s[i].0@ != e.0@ by {
        assert(holds_key(s, s[i].0@));
    }
    assert(forall|i: int| 0 <= i < s.len() ==> #[trigger] t[i] == s[i]);
    assert(t[s.len() as int] == e);
    assert forall|k: Seq<u8>| #[trigger] map_of(t).contains_key(k) <==> map_of(s).insert(e.0@, e.1@).contains_key(k) by {
        if holds_key(t, k) {
            let i = choose|i: int| 0 <= i < t.len() && #[trigger] t[i].0@ == k;
            if i < s.len() {
                assert(holds_key(s, k));
            }
        }
        if holds_key(s, k) {
            let i = choose|i: int| 0 <= i < s.len() && #[trigger] s[i].0@ == k;
            assert(t[i].0@ == k);
        }
        if k == e.0@ {
            assert(t[s.len() as int].0@ == k);
        }
    }
    assert forall|k: Seq<u8>| #[trigger] map_of(t).contains_key(k) implies map_of(t)[k] == map_of(s).insert(e.0@, e.1@)[k] by {
        let i = choose|i: int| 0 <= i < t.len() && #[trigger] t[i].0@ == k;
        lemma_map_of_at(t, i);
        if i < s.len() {
            lemma_map_of_at(s, i);
        }
    }
    assert(map_of(t) =~= map_of(s).insert(e.0@, e.1@));
}

proof fn lemma_map_of_update(s: Seq<(Address, Post)>, i: int, e: (Address, Post))
    requires
        keys_unique(s),
        0 <= i < s.len(),
        e.0@ == s[i].0@,
    ensures
        keys_unique(s.update(i, e)),
        map_of(s.update(i, e)) == map_of(s).insert(e.0@, e.1@),
{
    let t = s.update(i, e);
    assert(forall|j: int| 0 <= j < s.len() ==> #[trigger] t[j].0@ == s[j].0@);
    assert forall|k: Seq<u8>| #[trigger] map_of(t).contains_key(k) <==> map_of(s).insert(e.0@, e.1@).contains_key(k) by {
        if holds_key(t, k) {
            let j = choose|j: int| 0 <= j < t.len() && #[trigger] t[j].0@ == k;
            assert(s[j].0@ == k);
        }
        if holds_key(s, k) {
            let j = choose|j: int| 0 <= j < s.len() && #[trigger] s[j].0@ == k;
            assert(t[j].0@ == k);
        }
        if k == e.0@ {
            assert(t[i].0@ == k);
        }
    }
    assert forall|k: Seq<u8>| #[trigger] map_of(t).contains_key(k) implies map_of(t)[k] == map_of(s).insert(e.0@, e.1@)[k] by {
        let j = choose|j: int| 0 <= j < t.len() && #[trigger] t[j].0@ == k;
        lemma_map_of_at(t, j);
        if j != i {
            lemma_map_of_at(s, j);
        }
    }
    assert(map_of(t) =~= map_of(s).insert(e.0@, e.1@));
}

proof fn lemma_map_of_remove(s: Seq<(Address, Post)>, i: int)
    requires
        keys_unique(s),
        0 <= i < s.len(),
    ensures
        keys_unique(s.remove(i)),
        map_of(s.remove(i)) == map_of(s).remove(s[i].0@),
{
    let t = s.remove(i);
    let k0 = s[i].0@;
    assert(forall|j: int| 0 <= j < i ==> #[trigger] t[j] == s[j]);
    assert(forall|j: int| i <= j < t.len() ==> #[trigger] t[j] == s[j + 1]);
    assert forall|a: int, b: int|
        #![trigger t[a], t[b]]
        0 <= a < t.len() && 0 <= b < t.len() && a != b implies t[a].0@ != t[b].0@ by {
        let sa = if a < i { a } else { a + 1 };
        let sb = if b < i { b } else { b + 1 };
        assert(t[a] == s[sa]);
        assert(t[b] == s[sb]);
    }
    assert forall|k: Seq<u8>| #[trigger] map_of(t).contains_key(k) <==> map_of(s).remove(k0).contains_key(k) by {
        if holds_key(t, k) {
            let j = choose|j: int| 0 <= j < t.len() && #[trigger] t[j].0@ == k;
            let sj = if j < i { j } else { j + 1 };
            assert(s[sj].0@ == k);
            assert(sj != i);
        }
        if holds_key(s, k) && k != k0 {
            let j = choose|j: int| 0 <= j < s.len() && #[trigger] s[j].0@ == k;
            let tj = if j < i { j } else { j - 1 };
            assert(t[tj].0@ == k);
        }
    }
    assert forall|k: Seq<u8>| #[trigger] map_of(t).contains_key(k) implies map_of(t)[k] == map_of(s).remove(k0)[k] by {
        let j = choose|j: int| 0 <= j < t.len() && #[trigger] t[j].0@ == k;
        let sj = if j < i { j } else { j + 1 };
        assert(t[j] == s[sj]);
        lemma_map_of_at(t, j);
        lemma_map_of_at(s, sj);
    }
    assert(map_of(t) =~= map_of(s).remove(k0));
}

impl View for PostStore {
    type V = Map<Seq<u8>, PostView>;

    /// The posts, by the bytes of their address.
    closed spec fn view(&self) -> Map<Seq<u8>, PostView> {
        map_of(self.accounts@)
    }
}

impl PostStore {
    /// The identity of the program that owns the posts.
    pub closed spec fn program(&self) -> Seq<u8> {
        self.program_id@
    }

    /// Each address holds at most one post, and every post's texts are within
    /// their bounds.
    pub closed spec fn wf(&self) -> bool {
        &&& keys_unique(self.accounts@)
        &&& forall|i: int| 0 <= i < self.accounts@.len() ==> post_wf(#[trigger] self.accounts@[i].1@)
    }

    /// Every post of a well-formed store has its texts within their bounds.
    pub proof fn lemma_posts_within_bounds(&self)
        requires
            self.wf(),
        ensures
            forall|k: Seq<u8>| #[trigger] self@.contains_key(k) ==> post_wf(self@[k]),
    {
        assert forall|k: Seq<u8>| #[trigger] self@.contains_key(k) implies post_wf(self@[k]) by {
            let i = choose|i: int| 0 <= i < self.accounts@.len() && #[trigger] self.accounts@[i].0@ == k;
            lemma_map_of_at(self.accounts@, i);
        }
    }

    /// An empty store for the program `program_id`.
    pub fn new(program_id: Address) -> (r: PostStore)
        ensures
            r.wf(),
            r.program() == program_id@,
            r@ == Map::<Seq<u8>, PostView>::empty(),
    {
        let r = PostStore { program_id, accounts: Vec::new() };
        assert(r@ =~= Map::<Seq<u8>, PostView>::empty());
        r
    }

    /// The identity of the program that owns the posts.
    pub fn program_id(&self) -> (r: Address)
        ensures
            r@ == self.program(),
    {
        self.program_id
    }

    fn find(&self, address: &Address) -> (r: Option<usize>)
        requires
            self.wf(),
        ensures
            match r {
                Some(i) => i < self.accounts@.len() && self.accounts@[i as int].0@ == address@,
                None => !self@.contains_key(address@),
            },
    {
        let mut i: usize = 0;
        while i < self.accounts.len()
            invariant
                0 <= i <= self.accounts@.len(),
                forall|j: int| 0 <= j < i ==> #[trigger] self.accounts@[j].0@ != address@,
            decreases self.accounts@.len() - i,
        {
            if self.accounts[i].0 == *address {
                return Some(i);
            }
            i = i + 1;
        }
        None
    }

    /// The post at `address`, if there is one.
    pub fn get(&self, address: &Address) -> (r: Option<&Post>)
        requires
            self.wf(),
        ensures
            match r {
                Some(p) => self@.contains_key(address@) && self@[address@] == p@,
                None => !self@.contains_key(address@),
            },
    {
        match self.find(address) {
            Some(i) => {
                proof {
                    lemma_map_of_at(self.accounts@, i as int);
                }
                Some(&self.accounts[i].1)
            },
            None => None,
        }
    }
}

/// What a create instruction leads to: the new post's address and the posts
/// after it, or the error it is refused with. The texts are checked first,
/// then the slug; then the address is derived and must be free.
pub open spec fn create_result(
    posts: Map<Seq<u8>, PostView>,
    program_id: Seq<u8>,
    author: Seq<u8>,
    title: Seq<char>,
    content: Seq<char>,
    slug: Seq<u8>,
    now: i64,
) -> Result<(Seq<u8>, Map<Seq<u8>, PostView>), BlogError> {
    match text_error(title, content) {
        Some(e) => Err(e),
        None => if !slug_valid(slug) {
            Err(BlogError::SlugInvalid)
        } else {
            match post_address(program_id, author, slug) {
                None => Err(BlogError::BumpNotFound),
                Some((a, b)) => if posts.contains_key(a) {
                    Err(BlogError::AccountInUse)
                } else {
                    Ok(
                        (
                            a,
                            posts.insert(
                                a,
                                PostView { author, title, content, timestamp: now, bump: b },
                            ),
                        ),
                    )
                },
            }
        },
    }
}

/// What `create_post` ensures, from the posts before and after it.
pub open spec fn create_post_ensures(
    before: Map<Seq<u8>, PostView>,
    after: Map<Seq<u8>, PostView>,
    program_id: Seq<u8>,
    author: Seq<u8>,
    title: Seq<char>,
    content: Seq<char>,
    slug: Seq<u8>,
    now: i64,
    r: Result<Address, BlogError>,
) -> bool {
    match r {
        Ok(a) => create_result(before, program_id, author, title, content, slug, now) == Ok::<
            (Seq<u8>, Map<Seq<u8>, PostView>),
            BlogError,
        >((a@, after)),
        Err(e) => create_result(before, program_id, author, title, content, slug, now) == Err::<
            (Seq<u8>, Map<Seq<u8>, PostView>),
            BlogError,
        >(e) && after == before,
    }
}

/// What an edit instruction leads to: the posts after it, or the error it is
/// refused with. The post must exist and belong to the signer before the
/// texts are checked; only the title and content change.
pub open spec fn edit_result(
    posts: Map<Seq<u8>, PostView>,
    post_account: Seq<u8>,
    signer: Seq<u8>,
    title: Seq<char>,
    content: Seq<char>,
) -> Result<Map<Seq<u8>, PostView>, BlogError> {
    if !posts.contains_key(post_account) {
        Err(BlogError::AccountNotFound)
    } else if posts[post_account].author != signer {
        Err(BlogError::Unauthorized)
    } else {
        match text_error(title, content) {
            Some(e) => Err(e),
            None => {
                let p = posts[post_account];
                Ok(
                    posts.insert(
                        post_account,
                        PostView {
                            author: p.author,
                            title,
                            content,
                            timestamp: p.timestamp,
                            bump: p.bump,
                        },
                    ),
                )
            },
        }
    }
}

/// What `edit_post` ensures, from the posts before and after it.
pub open spec fn edit_post_ensures(
    before: Map<Seq<u8>, PostView>,
    after: Map<Seq<u8>, PostView>,
    post_account: Seq<u8>,
    signer: Seq<u8>,
    title: Seq<char>,
    content: Seq<char>,
    r: Result<(), BlogError>,
) -> bool {
    match r {
        Ok(_) => edit_result(before, post_account, signer, title, content) == Ok::<
            Map<Seq<u8>, PostView>,
            BlogError,
        >(after),
        Err(e) => edit_result(before, post_account, signer, title, content) == Err::<
            Map<Seq<u8>, PostView>,
            BlogError,
        >(e) && after == before,
    }
}

/// What a delete instruction leads to: the posts after it, or the error it is
/// refused with.
pub open spec fn delete_result(
    posts: Map<Seq<u8>, PostView>,
    post_account: Seq<u8>,
    signer: Seq<u8>,
) -> Result<Map<Seq<u8>, PostView>, BlogError> {
    if !posts.contains_key(post_account) {
        Err(BlogError::AccountNotFound)
    } else if posts[post_account].author != signer {
        Err(BlogError::Unauthorized)
    } else {
        Ok(posts.remove(post_account))
    }
}

/// What `delete` ensures, from the posts before and after it.
pub open spec fn delete_ensures(
    before: Map<Seq<u8>, PostView>,
    after: Map<Seq<u8>, PostView>,
    post_account: Seq<u8>,
    signer: Seq<u8>,
    r: Result<(), BlogError>,
) -> bool {
    match r {
        Ok(_) => delete_result(before, post_account, signer) == Ok::<
            Map<Seq<u8>, PostView>,
            BlogError,
        >(after),
        Err(e) => delete_result(before, post_account, signer) == Err::<
            Map<Seq<u8>, PostView>,
            BlogError,
        >(e) && after == before,
    }
}

/// Creates a post for the signer at the address derived from its identity and
/// `post_seed_slug`, stamped with the clock's `now` (seconds). Returns the
/// post's address.
pub fn create_post(
    store: &mut PostStore,
    ctx: &CreatePost,
    title: String,
    content: String,
    post_seed_slug: String,
    now: i64,
) -> (r: Result<Address, BlogError>)
    requires
        old(store).wf(),
    ensures
        final(store).wf(),
        final(store).program() == old(store).program(),
        create_post_ensures(
            old(store)@,
            final(store)@,
            old(store).program(),
            ctx.author@,
            title@,
            content@,
            utf8_bytes(post_seed_slug@),
            now,
            r,
        ),
{
    validate_text(title.as_str(), content.as_str())?;
    validate_slug(post_seed_slug.as_str())?;
    let (address, bump) = derive_post_address(&store.program_id, &ctx.author, post_seed_slug.as_str())?;
    if store.find(&address).is_some() {
        return Err(BlogError::AccountInUse);
    }
    let post = Post { author: ctx.author, title, content, timestamp: now, bump };
    proof {
        lemma_map_of_push(store.accounts@, (address, post));
    }
    store.accounts.push((address, post));
    Ok(address)
}

/// Replaces the title and content of the signer's post; the author, the
/// creation time and the bump stay.
pub fn edit_post(store: &mut PostStore, ctx: &EditPost, title: String, content: String) -> (r: Result<(), BlogError>)
    requires
        old(store).wf(),
    ensures
        final(store).wf(),
        final(store).program() == old(store).program(),
        edit_post_ensures(old(store)@, final(store)@, ctx.post_account@, ctx.author@, title@, content@, r),
{
    let i = match store.find(&ctx.post_account) {
        Some(i) => i,
        None => return Err(BlogError::AccountNotFound),
    };
    proof {
        lemma_map_of_at(store.accounts@, i as int);
    }
    check_owner(&store.accounts[i].1, &ctx.author)?;
    validate_text(title.as_str(), content.as_str())?;
    let author = store.accounts[i].1.author;
    let timestamp = store.accounts[i].1.timestamp;
    let bump = store.accounts[i].1.bump;
    let post = Post { author, title, content, timestamp, bump };
    proof {
        lemma_map_of_update(store.accounts@, i as int, (ctx.post_account, post));
    }
    store.accounts.set(i, (ctx.post_account, post));
    Ok(())
}

/// Closes the signer's post; its storage goes back to the author.
pub fn delete(store: &mut PostStore, ctx: &Delete) -> (r: Result<(), BlogError>)
    requires
        old(store).wf(),
    ensures
        final(store).wf(),
        final(store).program() == old(store).program(),
        delete_ensures(old(store)@, final(store)@, ctx.post_account@, ctx.author@, r),
{
    let i = match store.find(&ctx.post_account) {
        Some(i) => i,
        None => return Err(BlogError::AccountNotFound),
    };
    proof {
        lemma_map_of_at(store.accounts@, i as int);
        lemma_map_of_remove(store.accounts@, i as int);
    }
    check_owner(&store.accounts[i].1, &ctx.author)?;
    store.accounts.remove(i);
    Ok(())
}

} // verus!
