//! Content hashes of serialized parameters.

use vstd::prelude::*;
use crate::text::{hex, hex_string};

verus! {

/// The 16 bytes of the MD5 digest of the UTF-8 encoding of a text.
pub uninterp spec fn md5_digest(text: Seq<char>) -> Seq<u8>;

/// `md5::compute` on the UTF-8 bytes of `text`. Trusted: the result is the
/// MD5 digest, which the contract only names, and it has 16 bytes.
#[verifier::external_body]
pub(crate) fn md5_bytes(text: &str) -> (r: Vec<u8>)
    ensures
        r@ == md5_digest(text@),
        r@.len() == 16,
{
    md5::compute(text.as_bytes()).0.to_vec()
}

/// The content hash of a text: its MD5 digest as 32 lower-case hexadecimal
/// digits.
pub open spec fn content_hash_spec(text: Seq<char>) -> Seq<char> {
    hex(md5_digest(text))
}

/// The content hash of `text`.
pub fn content_hash(text: &str) -> (r: String)
    ensures
        r@ == content_hash_spec(text@),
        r@.len() == 32,
{
    let digest = md5_bytes(text);
    hex_string(&digest)
}

} // verus!
