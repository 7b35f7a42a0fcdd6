use crate::text::{decimal, push_decimal, string_of};
use vstd::prelude::*;

verus! {

/// The 64-bit XXH3 hash (default seed) of the UTF-8 bytes of a text.
pub uninterp spec fn xxh3_64_of(text: Seq<char>) -> u64;

/// Feeds the UTF-8 bytes of `text` to a fresh `xxhash_rust::xxh3::Xxh3` and takes its digest.
/// Claimed: the digest is `xxh3_64_of(text@)`, a function of the text alone.
#[verifier::external_body]
fn xxh3_digest(text: &str) -> (r: u64)
    ensures
        r == xxh3_64_of(text@),
{
    let mut hasher = xxhash_rust::xxh3::Xxh3::new();
    hasher.update(text.as_bytes());
    hasher.digest()
}

/// The XXH3 hash of `code`, written in decimal.
pub fn hash_string(code: String) -> (r: String)
    ensures
        r@ == decimal(xxh3_64_of(code@) as nat),
{
    let digest = xxh3_digest(code.as_str());
    let mut digits: Vec<char> = Vec::new();
    push_decimal(&mut digits, digest);
    assert(digits@ =~= decimal(digest as nat));
    string_of(&digits)
}

} // verus!
