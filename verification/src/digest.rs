//! SHA-256 and unpadded base64url, as PKCE needs them.

use base64::Engine;
use sha2::Digest;
use vstd::prelude::*;

verus! {

/// The SHA-256 digest of a byte string (FIPS 180-4).
pub uninterp spec fn sha256(bytes: Seq<u8>) -> Seq<u8>;

/// The base64 text of a byte string in the URL-safe alphabet,
/// without padding (RFC 4648, section 5).
pub uninterp spec fn base64url(bytes: Seq<u8>) -> Seq<char>;

/// `sha2::Sha256::digest`: the digest of `bytes`, which has 32 bytes.
#[verifier::external_body]
pub(crate) fn sha256_digest(bytes: &[u8]) -> (digest: Vec<u8>)
    ensures
        digest@ == sha256(bytes@),
        digest@.len() == 32,
{
    sha2::Sha256::digest(bytes).to_vec()
}

/// The characters of the URL-safe base64 alphabet: letters, digits,
/// `-` and `_`.
pub open spec fn is_base64url_char(c: char) -> bool {
    ('A' <= c <= 'Z') || ('a' <= c <= 'z') || ('0' <= c <= '9') || c == '-' || c == '_'
}

/// The length of the unpadded base64 text of that many bytes: four
/// characters for every three bytes, and two or three for the one or
/// two bytes that are left.
pub open spec fn base64_len(bytes: nat) -> nat {
    let rest: nat = if bytes % 3 == 0 {
        0
    } else if bytes % 3 == 1 {
        2
    } else {
        3
    };
    (bytes / 3) * 4 + rest
}

/// `base64::prelude::BASE64_URL_SAFE_NO_PAD.encode`: the unpadded
/// URL-safe base64 text of `bytes`. It has the length that the length
/// of the bytes gives, and it holds characters of the URL-safe
/// alphabet only, so no `=`, `+` or `/`.
#[verifier::external_body]
pub(crate) fn base64url_encode(bytes: &[u8]) -> (text: String)
    ensures
        text@ == base64url(bytes@),
        text@.len() == base64_len(bytes@.len()),
        forall|i: int| 0 <= i < text@.len() ==> is_base64url_char(#[trigger] text@[i]),
{
    base64::prelude::BASE64_URL_SAFE_NO_PAD.encode(bytes)
}

} // verus!
