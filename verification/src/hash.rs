//! Content hashing: a SHA-256 digest of the text, rendered in standard
//! base64. Both primitives come from outside crates and are taken on trust
//! behind named spec functions; the engine's contract is that the hash is a
//! function of the text alone.

use vstd::prelude::*;
use sha2::Digest;
use base64::Engine;

verus! {

/// The SHA-256 digest of the UTF-8 encoding of a character sequence.
pub uninterp spec fn sha256_of(text: Seq<char>) -> Seq<u8>;

/// Relies on `sha2::Sha256`: the digest is 32 bytes and depends on the
/// hashed bytes alone.
#[verifier::external_body]
pub fn sha256_digest(text: &str) -> (r: Vec<u8>)
    ensures
        r@ == sha256_of(text@),
        r@.len() == 32,
{
    let mut hasher = sha2::Sha256::new();
    hasher.update(text.as_bytes());
    hasher.finalize().to_vec()
}

/// The standard padded base64 rendering of a byte sequence.
pub uninterp spec fn base64_of(bytes: Seq<u8>) -> Seq<char>;

/// Relies on `base64::engine::general_purpose::STANDARD`: the padded
/// rendering writes four characters for every three bytes, rounded up, and
/// depends on the bytes alone.
#[verifier::external_body]
pub fn base64_encode(bytes: &Vec<u8>) -> (r: String)
    ensures
        r@ == base64_of(bytes@),
        r@.len() == 4 * ((bytes@.len() + 2) / 3),
{
    base64::engine::general_purpose::STANDARD.encode(bytes.as_slice())
}

/// The content hash of a text: base64 of its SHA-256 digest.
pub open spec fn content_hash_of(text: Seq<char>) -> Seq<char> {
    base64_of(sha256_of(text))
}

/// Two hashes of the same text are the same: the hash is a function of the
/// text alone.
pub proof fn lemma_content_hash_deterministic(a: Seq<char>, b: Seq<char>)
    requires
        a == b,
    ensures
        content_hash_of(a) == content_hash_of(b),
{
}

/// Computes the content hash of `text`: always 44 characters.
pub fn hash_text(text: &str) -> (r: String)
    ensures
        r@ == content_hash_of(text@),
        r@.len() == 44,
{
    let digest = sha256_digest(text);
    base64_encode(&digest)
}

} // verus!
