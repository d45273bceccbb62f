//! Content digests.
use sha2::Digest;
use vstd::prelude::*;
use vstd::utf8::encode_utf8;

verus! {

/// The SHA-256 digest of some bytes, written as lowercase hexadecimal.
pub uninterp spec fn sha256_hex(data: Seq<u8>) -> Seq<char>;

/// A lowercase hexadecimal digit.
pub open spec fn is_hex_digit(c: char) -> bool {
    ('0' <= c && c <= '9') || ('a' <= c && c <= 'f')
}

/// Sixty-four lowercase hexadecimal digits.
pub open spec fn is_digest_text(s: Seq<char>) -> bool {
    s.len() == 64 && forall|i: int| 0 <= i < s.len() ==> is_hex_digit(#[trigger] s[i])
}

/// Relies on `sha2::Sha256`: the digest of the bytes, formatted as 64
/// lowercase hexadecimal digits (`LowerHex` of the 32-byte output).
#[verifier::external_body]
pub fn sha256_bytes(data: &[u8]) -> (r: String)
    ensures
        r@ == sha256_hex(data@),
        is_digest_text(r@),
{
    format!("{:x}", sha2::Sha256::digest(data))
}

/// The digest of the UTF-8 encoding of a text.
pub open spec fn text_digest(s: Seq<char>) -> Seq<char> {
    sha256_hex(encode_utf8(s))
}

/// Digest of the UTF-8 bytes of `data`.
pub fn sha256_string(data: &str) -> (r: String)
    ensures
        r@ == text_digest(data@),
        is_digest_text(r@),
{
    sha256_bytes(data.as_bytes())
}

} // verus!
