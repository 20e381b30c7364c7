//! SHA-256 digests, written in hexadecimal.

use sha2::Digest;
use vstd::prelude::*;
use vstd::string::StringSliceAdditionalSpecFns;
use vstd::utf8::encode_utf8;

use crate::text::hex_lower;
use crate::text::to_hex;

verus! {

/// The SHA-256 digest of `data`, as `sha2` computes it.
pub uninterp spec fn sha256_digest(data: Seq<u8>) -> Seq<u8>;

/// `sha2::Sha256::digest`. The contract names the 32 bytes it returns
/// `sha256_digest`; it claims that the same input always gives the same
/// digest.
#[verifier::external_body]
pub(crate) fn sha256(data: &[u8]) -> (digest: [u8; 32])
    ensures
        digest@ == sha256_digest(data@),
{
    sha2::Sha256::digest(data).into()
}

/// The digest of a text: the SHA-256 digest of its UTF-8 bytes, in
/// lower-case hexadecimal.
pub open spec fn text_digest(text: Seq<char>) -> Seq<char> {
    hex_lower(sha256_digest(encode_utf8(text)))
}

/// The hexadecimal SHA-256 digest of `text`; it has 64 characters.
pub fn digest_text(text: &str) -> (hash: String)
    ensures
        hash@ == text_digest(text@),
        hash@.len() == 64,
{
    let digest = sha256(text.as_bytes());
    to_hex(digest.as_slice())
}

} // verus!
