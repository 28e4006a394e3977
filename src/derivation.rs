//! Where a post lives: an address derived from a fixed tag, the author's
//! identity and the slug, under the program's identity.

use vstd::prelude::*;
use anchor_lang::prelude::Pubkey;
use crate::address::Address;
use crate::post::{utf8_bytes, BlogError};

verus! {

/// The program-derived address and bump byte for a list of seeds under a
/// program, or `None` when no bump byte gives an address off the curve.
pub uninterp spec fn program_address_of(seeds: Seq<Seq<u8>>, program_id: Seq<u8>) -> Option<(Seq<u8>, u8)>;

/// The seeds' bytes, one list per seed.
pub open spec fn seeds_view(seeds: Seq<Vec<u8>>) -> Seq<Seq<u8>> {
    seeds.map_values(|s: Vec<u8>| s@)
}

/// Relies on Pubkey::try_find_program_address: it hashes the seeds, a bump
/// byte and the program's identity, and returns the first address off the
/// curve with its bump, trying bumps from 255 down; the result depends on its
/// arguments alone.
#[verifier::external_body]
fn try_find_program_address(seeds: &Vec<Vec<u8>>, program_id: &Address) -> (r: Option<(Address, u8)>)
    ensures
        r matches Some((a, b)) ==> program_address_of(seeds_view(seeds@), program_id@) == Some((a@, b)),
        r is None ==> program_address_of(seeds_view(seeds@), program_id@) is None,
{
    let slices: Vec<&[u8]> = seeds.iter().map(|s| s.as_slice()).collect();
    let id = Pubkey::new_from_array(program_id.bytes);
    Pubkey::try_find_program_address(&slices, &id).map(|(a, b)| (Address { bytes: a.to_bytes() }, b))
}

/// The tag that opens every post's seeds: the bytes of "post".
pub open spec fn post_seed_prefix() -> Seq<u8> {
    seq![112u8, 111u8, 115u8, 116u8]
}

/// The seeds of the post that `author` keeps under `slug`.
pub open spec fn post_seeds(author: Seq<u8>, slug: Seq<u8>) -> Seq<Seq<u8>> {
    seq![post_seed_prefix(), author, slug]
}

/// The address and bump of the post that `author` keeps under `slug`.
pub open spec fn post_address(program_id: Seq<u8>, author: Seq<u8>, slug: Seq<u8>) -> Option<(Seq<u8>, u8)> {
    program_address_of(post_seeds(author, slug), program_id)
}

/// The bytes that are hashed for a post's address, before the bump: the
/// seeds one after another.
pub open spec fn post_seed_bytes(author: Seq<u8>, slug: Seq<u8>) -> Seq<u8> {
    post_seed_prefix() + author + slug
}

/// What `derive_post_address` returns: the derived address and bump, or
/// `BumpNotFound` when there is none.
pub open spec fn derive_post_address_ensures(
    program_id: Seq<u8>,
    author: Seq<u8>,
    slug: Seq<u8>,
    r: Result<(Address, u8), BlogError>,
) -> bool {
    match post_address(program_id, author, slug) {
        Some((a, b)) => r matches Ok((ra, rb)) && ra@ == a && rb == b,
        None => r == Err::<(Address, u8), BlogError>(BlogError::BumpNotFound),
    }
}

fn post_seed_prefix_bytes() -> (r: Vec<u8>)
    ensures
        r@ == post_seed_prefix(),
{
    let r: Vec<u8> = vec![112u8, 111u8, 115u8, 116u8];
    assert(r@ =~= post_seed_prefix());
    r
}

/// The address of the post that `author` keeps under `slug`, with its bump
/// byte; `BumpNotFound` when none can be derived.
pub fn derive_post_address(program_id: &Address, author: &Address, slug: &str) -> (r: Result<(Address, u8), BlogError>)
    ensures
        derive_post_address_ensures(program_id@, author@, utf8_bytes(slug@), r),
{
    let mut seeds: Vec<Vec<u8>> = Vec::new();
    seeds.push(post_seed_prefix_bytes());
    seeds.push(author.to_vec());
    seeds.push(vstd::slice::slice_to_vec(slug.as_bytes()));
    assert(seeds_view(seeds@) =~= post_seeds(author@, utf8_bytes(slug@)));
    match try_find_program_address(&seeds, program_id) {
        Some(found) => Ok(found),
        None => Err(BlogError::BumpNotFound),
    }
}

} // verus!
