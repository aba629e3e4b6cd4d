//! The proof buffer: a 4-byte selector, then eight 32-byte big-endian words
//! `[A.x, A.y, B.x1, B.x0, B.y1, B.y0, C.x, C.y]`.
use vstd::prelude::*;
use crate::bytes::{be_value, copy_range};
use crate::curve::{G1Point, G2Point};
use crate::error::VerifyError;

verus! {

/// The selector of SP1's Groth16 verifier.
pub const GROTH16_SELECTOR: [u8; 4] = [0xa4, 0x59, 0x4c, 0x59];

/// Bytes a proof buffer needs: the selector and eight words.
pub const PROOF_MIN_LEN: usize = 260;

/// The outcome of comparing a proof's leading bytes with `expected`: too
/// short without four bytes, accepted when they are `expected`, otherwise a
/// wrong selector that reports both.
pub open spec fn selector_outcome(r: Result<(), VerifyError>, proof: Seq<u8>, expected: Seq<u8>) -> bool {
    if proof.len() < 4 {
        r == Err::<(), VerifyError>(VerifyError::ProofTooShort)
    } else if proof.subrange(0, 4) == expected {
        r == Ok::<(), VerifyError>(())
    } else {
        r matches Err(VerifyError::WrongSelector { received, expected: e }) && received@ == proof.subrange(
            0,
            4,
        ) && e@ == expected
    }
}

/// Whether the proof starts with `expected`.
pub open spec fn has_selector(proof: Seq<u8>, expected: Seq<u8>) -> bool {
    proof.len() >= 4 && proof.subrange(0, 4) == expected
}

/// Compares the proof's first four bytes with `expected`.
pub fn check_selector(proof: &[u8], expected: [u8; 4]) -> (r: Result<(), VerifyError>)
    ensures
        selector_outcome(r, proof@, expected@),
{
    if proof.len() < 4 {
        return Err(VerifyError::ProofTooShort);
    }
    let received: [u8; 4] = [proof[0], proof[1], proof[2], proof[3]];
    assert(received@ =~= proof@.subrange(0, 4));
    if received[0] == expected[0] && received[1] == expected[1] && received[2] == expected[2]
        && received[3] == expected[3] {
        assert(received@ =~= expected@);
        Ok(())
    } else {
        Err(VerifyError::WrongSelector { received, expected })
    }
}

/// The `k`-th 32-byte word after the selector.
pub open spec fn proof_word_bytes(proof: Seq<u8>, k: int) -> Seq<u8> {
    proof.subrange(4 + 32 * k, 4 + 32 * k + 32)
}

/// The `k`-th word after the selector, as an integer.
pub open spec fn proof_word(proof: Seq<u8>, k: int) -> int {
    be_value(proof_word_bytes(proof, k)) as int
}

/// Point `A` of the proof.
pub open spec fn proof_a(proof: Seq<u8>) -> (int, int) {
    (proof_word(proof, 0), proof_word(proof, 1))
}

/// Point `B` of the proof: each coordinate's `1` component precedes its `0`
/// component.
pub open spec fn proof_b(proof: Seq<u8>) -> (int, int, int, int) {
    (proof_word(proof, 3), proof_word(proof, 2), proof_word(proof, 5), proof_word(proof, 4))
}

/// Point `C` of the proof.
pub open spec fn proof_c(proof: Seq<u8>) -> (int, int) {
    (proof_word(proof, 6), proof_word(proof, 7))
}

/// The three points of a Groth16 proof.
#[derive(Debug, Clone, PartialEq, Eq)]
pub struct ProofPoints {
    pub a: G1Point,
    pub b: G2Point,
    pub c: G1Point,
}

/// The `k`-th word after the selector.
fn read_word(proof: &[u8], k: usize) -> (r: Vec<u8>)
    requires
        k < 8,
        proof@.len() >= PROOF_MIN_LEN,
    ensures
        r@ == proof_word_bytes(proof@, k as int),
{
    copy_range(proof, 4 + 32 * k, 32)
}

/// Reads the points `A`, `B` and `C` at their fixed offsets.
pub fn decode_proof(proof: &[u8]) -> (r: Result<ProofPoints, VerifyError>)
    ensures
        proof@.len() < PROOF_MIN_LEN ==> r == Err::<ProofPoints, VerifyError>(VerifyError::ProofTooShort),
        proof@.len() >= PROOF_MIN_LEN ==> (r matches Ok(p) && p.a@ == proof_a(proof@) && p.b@ == proof_b(
            proof@,
        ) && p.c@ == proof_c(proof@)),
        r matches Ok(p) ==> {
            &&& p.a.x@ == proof_word_bytes(proof@, 0)
            &&& p.a.y@ == proof_word_bytes(proof@, 1)
            &&& p.b.x1@ == proof_word_bytes(proof@, 2)
            &&& p.b.x0@ == proof_word_bytes(proof@, 3)
            &&& p.b.y1@ == proof_word_bytes(proof@, 4)
            &&& p.b.y0@ == proof_word_bytes(proof@, 5)
            &&& p.c.x@ == proof_word_bytes(proof@, 6)
            &&& p.c.y@ == proof_word_bytes(proof@, 7)
        },
{
    if proof.len() < PROOF_MIN_LEN {
        return Err(VerifyError::ProofTooShort);
    }
    let a = G1Point { x: read_word(proof, 0), y: read_word(proof, 1) };
    let b = G2Point {
        x1: read_word(proof, 2),
        x0: read_word(proof, 3),
        y1: read_word(proof, 4),
        y0: read_word(proof, 5),
    };
    let c = G1Point { x: read_word(proof, 6), y: read_word(proof, 7) };
    Ok(ProofPoints { a, b, c })
}

} // verus!
