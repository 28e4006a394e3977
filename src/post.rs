//! The post record, its fixed storage layout, and the checks made on every
//! write.

use vstd::prelude::*;
use vstd::string::StrSliceExecFns;
use crate::address::Address;

verus! {

/// Most characters a title may hold.
pub const MAX_TITLE_LENGTH: usize = 50;

/// Most characters a post's content may hold.
pub const MAX_CONTENT_LENGTH: usize = 500;

/// Most bytes a slug may hold.
pub const MAX_SLUG_LENGTH: usize = 32;

/// Why an instruction was refused. A refused instruction changes nothing.
#[derive(Clone, Copy, Debug, PartialEq, Eq, Structural)]
pub enum BlogError {
    /// The title holds more than `MAX_TITLE_LENGTH` characters.
    TitleTooLong,
    /// The content holds more than `MAX_CONTENT_LENGTH` characters.
    ContentTooLong,
    /// The slug is empty or longer than `MAX_SLUG_LENGTH` bytes.
    SlugInvalid,
    /// No bump byte gives an address off the curve.
    BumpNotFound,
    /// The signer is not the post's author.
    Unauthorized,
    /// An account already lives at the derived address.
    AccountInUse,
    /// No post lives at the given address.
    AccountNotFound,
}

/// A post as stored on chain.
#[derive(Debug)]
pub struct Post {
    pub author: Address,
    pub title: String,
    pub content: String,
    /// Creation time, in seconds.
    pub timestamp: i64,
    /// The byte that, appended to the seeds, derives the post's address.
    pub bump: u8,
}

/// What a post holds, as mathematical values.
pub struct PostView {
    pub author: Seq<u8>,
    pub title: Seq<char>,
    pub content: Seq<char>,
    pub timestamp: i64,
    pub bump: u8,
}

impl View for Post {
    type V = PostView;

    open spec fn view(&self) -> PostView {
        PostView {
            author: self.author@,
            title: self.title@,
            content: self.content@,
            timestamp: self.timestamp,
            bump: self.bump,
        }
    }
}

/// Size in bytes of a stored post: the type tag, the author, both texts with
/// their 4-byte length prefix at four bytes per character, the timestamp and
/// the bump.
pub open spec fn post_space() -> int {
    8 + 32 + (4 + MAX_TITLE_LENGTH * 4) + (4 + MAX_CONTENT_LENGTH * 4) + 8 + 1
}

impl Post {
    /// Bytes to allocate for a post, enough for the longest texts in any
    /// encoding.
    pub fn space() -> (r: usize)
        ensures
            r == post_space(),
            r == 2257,
    {
        8 + 32 + (4 + MAX_TITLE_LENGTH * 4) + (4 + MAX_CONTENT_LENGTH * 4) + 8 + 1
    }
}

/// Bytes that a post takes once serialized: the type tag, the author, each
/// text as a 4-byte length and its UTF-8 bytes, the timestamp and the bump.
pub open spec fn serialized_len(p: PostView) -> int {
    8 + 32 + (4 + utf8_bytes(p.title).len() as int) + (4 + utf8_bytes(p.content).len() as int) + 8 + 1
}

proof fn lemma_utf8_len_bound(text: Seq<char>)
    ensures
        utf8_bytes(text).len() <= 4 * text.len(),
    decreases text.len(),
{
    if text.len() > 0 {
        lemma_utf8_len_bound(text.drop_first());
    }
}

/// Every post whose texts are within bounds fits the space allocated for a
/// post, so an edit never needs the account to grow.
pub proof fn lemma_post_fits_space(p: PostView)
    requires
        post_wf(p),
    ensures
        serialized_len(p) <= post_space(),
{
    lemma_utf8_len_bound(p.title);
    lemma_utf8_len_bound(p.content);
}

/// The error that a title and content are refused with, if any; the title is
/// checked first.
pub open spec fn text_error(title: Seq<char>, content: Seq<char>) -> Option<BlogError> {
    if title.len() > MAX_TITLE_LENGTH {
        Some(BlogError::TitleTooLong)
    } else if content.len() > MAX_CONTENT_LENGTH {
        Some(BlogError::ContentTooLong)
    } else {
        None
    }
}

/// The UTF-8 bytes of a text.
pub open spec fn utf8_bytes(text: Seq<char>) -> Seq<u8> {
    vstd::utf8::encode_utf8(text)
}

/// Whether a slug's bytes can seed a post's address.
pub open spec fn slug_valid(slug: Seq<u8>) -> bool {
    1 <= slug.len() <= MAX_SLUG_LENGTH
}

/// A well-formed post's texts are within their bounds.
pub open spec fn post_wf(p: PostView) -> bool {
    p.title.len() <= MAX_TITLE_LENGTH && p.content.len() <= MAX_CONTENT_LENGTH
}

/// Checks the lengths of a title and a content, in characters.
pub fn validate_text(title: &str, content: &str) -> (r: Result<(), BlogError>)
    ensures
        r is Ok <==> text_error(title@, content@) is None,
        r matches Err(e) ==> text_error(title@, content@) == Some(e),
{
    if title.unicode_len() > MAX_TITLE_LENGTH {
        return Err(BlogError::TitleTooLong);
    }
    if content.unicode_len() > MAX_CONTENT_LENGTH {
        return Err(BlogError::ContentTooLong);
    }
    Ok(())
}

/// Checks that a slug is non-empty and at most `MAX_SLUG_LENGTH` bytes.
pub fn validate_slug(slug: &str) -> (r: Result<(), BlogError>)
    ensures
        r is Ok <==> slug_valid(utf8_bytes(slug@)),
        r matches Err(e) ==> e == BlogError::SlugInvalid,
{
    let n = slug.as_bytes().len();
    if n == 0 || n > MAX_SLUG_LENGTH {
        return Err(BlogError::SlugInvalid);
    }
    Ok(())
}

/// Lets only a post's author act on it.
pub fn check_owner(post: &Post, signer: &Address) -> (r: Result<(), BlogError>)
    ensures
        r is Ok <==> post.author@ == signer@,
        r matches Err(e) ==> e == BlogError::Unauthorized,
{
    if post.author == *signer {
        Ok(())
    } else {
        Err(BlogError::Unauthorized)
    }
}

} // verus!
