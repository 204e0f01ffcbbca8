//! SHA-256 digests and their hexadecimal rendering.
//!
//! API keys and passwords are stored and compared as the lower-case hex
//! encoding of their SHA-256 digest. The digest itself is named, not
//! written out; the hex rendering has an exact specification.

use vstd::prelude::*;

verus! {

/// The SHA-256 digest of a byte sequence, as computed by the sha2 crate.
pub uninterp spec fn sha256_of(bytes: Seq<u8>) -> Seq<u8>;

/// The lower-case hex digit for a value below 16.
pub open spec fn hex_digit(n: u8) -> char
    recommends
        n < 16,
{
    if n < 10 {
        ((48 + n) as u8) as char
    } else {
        ((87 + n) as u8) as char
    }
}

/// Lower-case hex rendering: two digits for each byte, high nibble first.
pub open spec fn hex_of(s: Seq<u8>) -> Seq<char>
    decreases s.len(),
{
    if s.len() == 0 {
        Seq::empty()
    } else {
        seq![hex_digit(s[0] / 16), hex_digit(s[0] % 16)] + hex_of(s.drop_first())
    }
}

/// Relies on sha2::Sha256: the digest depends on the bytes alone and is
/// 32 bytes long.
#[verifier::external_body]
pub fn sha256(bytes: &[u8]) -> (r: Vec<u8>)
    ensures
        r@ == sha256_of(bytes@),
        r@.len() == 32,
{
    let mut hasher = <sha2::Sha256 as sha2::Digest>::new();
    sha2::Digest::update(&mut hasher, bytes);
    sha2::Digest::finalize(hasher).to_vec()
}

/// Relies on hex::encode: lower-case hex, two digits for each byte,
/// high nibble first.
#[verifier::external_body]
pub fn to_hex(bytes: &[u8]) -> (r: String)
    ensures
        r@ == hex_of(bytes@),
{
    hex::encode(bytes)
}

/// The hex rendering of the SHA-256 digest of `bytes`.
pub fn sha256_hex(bytes: &[u8]) -> (r: String)
    ensures
        r@ == hex_of(sha256_of(bytes@)),
{
    let digest = sha256(bytes);
    to_hex(digest.as_slice())
}

} // verus!
