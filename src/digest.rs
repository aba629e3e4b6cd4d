//! The public-values digest: SHA-256 with the three top bits cleared, so that
//! the digest read as a big-endian integer is below `2^253` and fits the
//! scalar field of BN254.
use vstd::prelude::*;
use sha2::Digest;
use crate::bytes::{be_value, lemma_be_value_bound, pow256};

verus! {

/// The SHA-256 digest of `data`.
pub uninterp spec fn sha256_of(data: Seq<u8>) -> [u8; 32];

/// Relies on `sha2::Sha256::digest`: the 32-byte SHA-256 digest of `data`,
/// which depends on the bytes alone.
#[verifier::external_body]
fn sha256(data: &[u8]) -> (r: [u8; 32])
    ensures
        r == sha256_of(data@),
{
    sha2::Sha256::digest(data).into()
}

/// `h` with the three high bits of its first byte cleared.
pub open spec fn mask_top_bits(h: Seq<u8>) -> Seq<u8> {
    h.update(0, h[0] & 0x1f)
}

/// The digest of a public-values blob.
pub open spec fn public_values_digest(public_values: Seq<u8>) -> Seq<u8> {
    mask_top_bits(sha256_of(public_values)@)
}

/// Clears the three high bits of `h`'s first byte.
pub fn mask_digest(h: [u8; 32]) -> (r: [u8; 32])
    ensures
        r@ == mask_top_bits(h@),
{
    let mut r = h;
    r[0] = h[0] & 0x1f;
    assert(r@ =~= mask_top_bits(h@));
    r
}

/// Hashes the public values to a value below the BN254 scalar-field modulus.
pub fn hash_public_values(public_values: &[u8]) -> (r: [u8; 32])
    ensures
        r@ == public_values_digest(public_values@),
        r[0] & 0xe0 == 0,
        be_value(r@) < pow2_253(),
{
    let r = mask_digest(sha256(public_values));
    proof {
        lemma_digest_below_2_253(public_values@);
    }
    r
}

/// `2^253`.
pub open spec fn pow2_253() -> nat {
    32 * pow256(31)
}

/// A 32-byte big-endian value whose first byte is below 32 is below `2^253`.
pub proof fn lemma_small_lead_byte(s: Seq<u8>)
    requires
        s.len() == 32,
        s[0] < 32,
    ensures
        be_value(s) < pow2_253(),
{
    let rest = s.subrange(1, 32);
    lemma_be_value_bound(rest);
    assert(be_value(s) == s[0] as nat * pow256(31) + be_value(rest));
    assert(s[0] as nat * pow256(31) <= 31 * pow256(31)) by (nonlinear_arith)
        requires
            s[0] < 32,
    ;
}

/// Digest masking: for every byte string, the digest's first byte has its
/// top three bits clear, and the digest read as a big-endian integer is
/// below `2^253`.
pub proof fn lemma_digest_below_2_253(public_values: Seq<u8>)
    ensures
        public_values_digest(public_values)[0] & 0xe0 == 0,
        public_values_digest(public_values).len() == 32,
        be_value(public_values_digest(public_values)) < pow2_253(),
{
    let h = sha256_of(public_values)@;
    let d = public_values_digest(public_values);
    assert(h.len() == 32);
    let b = h[0];
    assert(b & 0x1f & 0xe0 == 0 && b & 0x1f < 32) by (bit_vector);
    lemma_small_lead_byte(d);
}

} // verus!
