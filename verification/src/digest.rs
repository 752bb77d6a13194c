//! Content hashing: SHA-256 digests rendered as lowercase hex.
use sha2::Digest;
use vstd::prelude::*;

verus! {

/// The SHA-256 digest of `data` (as computed by the `sha2` crate).
pub uninterp spec fn sha256_of(data: Seq<u8>) -> Seq<u8>;

/// `sha2::Sha256::digest`: hashes `data`. The result is the digest named by
/// `sha256_of`, and is 32 bytes long (the output size of SHA-256).
#[verifier::external_body]
pub(crate) fn sha256_digest(data: &[u8]) -> (r: Vec<u8>)
    ensures
        r@ == sha256_of(data@),
        r@.len() == 32,
{
    sha2::Sha256::digest(data).to_vec()
}

/// The lowercase hexadecimal digit for a value below 16.
pub open spec fn hex_digit(v: u8) -> char {
    if v < 10 {
        ((v + 48) as u8) as char
    } else {
        ((v + 87) as u8) as char
    }
}

/// Each byte as two lowercase hex digits, high nibble first.
pub open spec fn lower_hex(b: Seq<u8>) -> Seq<char>
    decreases b.len(),
{
    if b.len() == 0 {
        Seq::empty()
    } else {
        seq![hex_digit(b[0] / 16), hex_digit(b[0] % 16)] + lower_hex(b.drop_first())
    }
}

/// `hex::encode`: every byte as two lowercase hex digits, in order.
#[verifier::external_body]
pub(crate) fn hex_encode(data: &[u8]) -> (r: String)
    ensures
        r@ == lower_hex(data@),
{
    hex::encode(data)
}

/// The lowercase-hex SHA-256 of the UTF-8 bytes of `s`.
pub open spec fn sha256_hex(s: Seq<char>) -> Seq<char> {
    lower_hex(sha256_of(vstd::utf8::encode_utf8(s)))
}

/// Hashes the UTF-8 bytes of `content` and renders the digest as lowercase hex.
pub fn sha256_hex_of(content: &str) -> (r: String)
    ensures
        r@ == sha256_hex(content@),
{
    let digest = sha256_digest(content.as_bytes());
    hex_encode(digest.as_slice())
}

} // verus!
