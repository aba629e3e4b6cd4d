//! The verifier: the consistency, selector, digest and pairing gates, in that
//! order, each ending the check on failure.
use vstd::prelude::*;
use crate::abi::{bytes_tail, public_values_encoding, tail_len, verify_public_values};
use crate::curve::{bn254_pairing_product_is_one, g1_linear_combination, linear_combination, multi_pairing_is_one, G1Point, G2Point};
use crate::digest::{hash_public_values, public_values_digest};
use crate::error::VerifyError;
use crate::layout::{
    check_selector, decode_proof, has_selector, proof_a, proof_b, proof_c, selector_outcome, ProofPoints,
    GROTH16_SELECTOR, PROOF_MIN_LEN,
};
use crate::vkey::VerifyingKeyConstants;

verus! {

/// The Groth16 equation
/// `e(A, B) · e(C, -delta) · e(alpha, -beta) · e(L, -gamma) == 1`, with
/// `L = constant + w0·basis[0] + w1·basis[1]`.
pub open spec fn groth16_accepts(
    key: VerifyingKeyConstants,
    a: (int, int),
    b: (int, int, int, int),
    c: (int, int),
    w0: Seq<u8>,
    w1: Seq<u8>,
) -> bool {
    let l = linear_combination(key.constant@, key.basis[0]@, key.basis[1]@, w0, w1);
    bn254_pairing_product_is_one(
        seq![a, c, key.alpha@, l],
        seq![b, key.neg_delta@, key.neg_beta@, key.neg_gamma@],
    ) == Some(true)
}

/// The outcome of the pairing gate.
pub open spec fn pairing_outcome(accepts: bool) -> Result<(), VerifyError> {
    if accepts {
        Ok(())
    } else {
        Err(VerifyError::PairingCheckFailed)
    }
}

/// Computes `L = constant + w0·basis[0] + w1·basis[1]`.
pub fn public_input_msm(key: &VerifyingKeyConstants, input: &[[u8; 32]; 2]) -> (r: G1Point)
    ensures
        r@ == linear_combination(key.constant@, key.basis[0]@, key.basis[1]@, input[0]@, input[1]@),
{
    g1_linear_combination(&key.constant, &key.basis[0], &key.basis[1], &input[0], &input[1])
}

/// Checks the Groth16 pairing equation for the proof points and the two
/// public inputs, read as big-endian integers.
pub fn verify_groth16(key: &VerifyingKeyConstants, proof: &ProofPoints, public_inputs: &[[u8; 32]; 2]) -> (r: Result<(), VerifyError>)
    ensures
        r == pairing_outcome(
            groth16_accepts(*key, proof.a@, proof.b@, proof.c@, public_inputs[0]@, public_inputs[1]@),
        ),
{
    let l_pub = public_input_msm(key, public_inputs);
    let g1: [&G1Point; 4] = [&proof.a, &proof.c, &key.alpha, &l_pub];
    let g2: [&G2Point; 4] = [&proof.b, &key.neg_delta, &key.neg_beta, &key.neg_gamma];
    assert(g1@.map_values(|p: &G1Point| p@) =~= seq![proof.a@, proof.c@, key.alpha@, l_pub@]);
    assert(g2@.map_values(|q: &G2Point| q@) =~= seq![proof.b@, key.neg_delta@, key.neg_beta@, key.neg_gamma@]);
    match multi_pairing_is_one(g1, g2) {
        Some(true) => Ok(()),
        _ => Err(VerifyError::PairingCheckFailed),
    }
}

/// What verifying `(pub_key, message, signature)` with `vkey`,
/// `public_values` and `proof` gives.
pub open spec fn signature_flow_outcome(
    r: Result<(), VerifyError>,
    key: VerifyingKeyConstants,
    pub_key: Seq<u8>,
    message: Seq<u8>,
    signature: Seq<u8>,
    vkey: Seq<u8>,
    public_values: Seq<u8>,
    proof: Seq<u8>,
) -> bool {
    let encoded = public_values_encoding(pub_key, message, signature);
    if public_values != encoded {
        r == Err::<(), VerifyError>(VerifyError::PublicValuesMismatch)
    } else if !has_selector(proof, GROTH16_SELECTOR@) {
        selector_outcome(r, proof, GROTH16_SELECTOR@)
    } else if proof.len() < PROOF_MIN_LEN {
        r == Err::<(), VerifyError>(VerifyError::ProofTooShort)
    } else {
        r == pairing_outcome(
            groth16_accepts(
                key,
                proof_a(proof),
                proof_b(proof),
                proof_c(proof),
                vkey,
                public_values_digest(encoded),
            ),
        )
    }
}

/// Verifies a proof that `signature` is a valid signature of `message` under
/// `pub_key`: the public values must encode the triple, the proof must carry
/// the Groth16 selector and hold its three points, and the pairing equation
/// must hold for the verifying-key hash and the public-values digest.
pub fn verify_signature_flow(
    key: &VerifyingKeyConstants,
    pub_key: &[u8],
    message: &[u8],
    signature: &[u8],
    vkey: [u8; 32],
    public_values: &[u8],
    proof_bytes: &[u8],
) -> (r: Result<(), VerifyError>)
    ensures
        signature_flow_outcome(r, *key, pub_key@, message@, signature@, vkey@, public_values@, proof_bytes@),
{
    match verify_public_values(pub_key, message, signature, public_values) {
        Ok(()) => {},
        Err(e) => {
            return Err(e);
        },
    }
    match check_selector(proof_bytes, GROTH16_SELECTOR) {
        Ok(()) => {},
        Err(e) => {
            return Err(e);
        },
    }
    let pv_digest = hash_public_values(public_values);
    let points = match decode_proof(proof_bytes) {
        Ok(p) => p,
        Err(e) => {
            return Err(e);
        },
    };
    verify_groth16(key, &points, &[vkey, pv_digest])
}

/// Reports whether the proof starts with the first four bytes of the
/// verifier hash.
pub fn check_verifier_selector(proof_bytes: &[u8], expected_verifier_hash: &[u8; 32]) -> (r: Result<(), VerifyError>)
    ensures
        selector_outcome(r, proof_bytes@, expected_verifier_hash@.subrange(0, 4)),
{
    let expected: [u8; 4] = [
        expected_verifier_hash[0],
        expected_verifier_hash[1],
        expected_verifier_hash[2],
        expected_verifier_hash[3],
    ];
    assert(expected@ =~= expected_verifier_hash@.subrange(0, 4));
    check_selector(proof_bytes, expected)
}

/// Determinism: the outcome of a verification is a function of its inputs;
/// two results that both meet the contract of `verify_signature_flow` for
/// the same inputs are equal.
pub proof fn lemma_verification_deterministic(
    r1: Result<(), VerifyError>,
    r2: Result<(), VerifyError>,
    key: VerifyingKeyConstants,
    pub_key: Seq<u8>,
    message: Seq<u8>,
    signature: Seq<u8>,
    vkey: Seq<u8>,
    public_values: Seq<u8>,
    proof: Seq<u8>,
)
    requires
        signature_flow_outcome(r1, key, pub_key, message, signature, vkey, public_values, proof),
        signature_flow_outcome(r2, key, pub_key, message, signature, vkey, public_values, proof),
    ensures
        r1 == r2,
{
    broadcast use vstd::array::group_array_axioms;

    if let Err(VerifyError::WrongSelector { received: a1, expected: e1 }) = r1 {
        if let Err(VerifyError::WrongSelector { received: a2, expected: e2 }) = r2 {
            assert(a1@ =~= a2@);
            assert(e1@ =~= e2@);
            assert(a1 == a2);
            assert(e1 == e2);
        }
    }
}

/// The triple with byte `i` of one field (0: public key, 1: message,
/// 2: signature) replaced by `v`.
pub open spec fn alter_field(
    pub_key: Seq<u8>,
    message: Seq<u8>,
    signature: Seq<u8>,
    field: int,
    i: int,
    v: u8,
) -> (Seq<u8>, Seq<u8>, Seq<u8>) {
    if field == 0 {
        (pub_key.update(i, v), message, signature)
    } else if field == 1 {
        (pub_key, message.update(i, v), signature)
    } else {
        (pub_key, message, signature.update(i, v))
    }
}

/// Consistency gate: changing any single byte of any of the three fields
/// changes their encoding, and verifying the altered triple against the
/// original public values then fails with `PublicValuesMismatch`, whatever
/// the key, verifying-key hash and proof.
pub proof fn lemma_altered_byte_rejected(
    pub_key: Seq<u8>,
    message: Seq<u8>,
    signature: Seq<u8>,
    field: int,
    i: int,
    v: u8,
    key: VerifyingKeyConstants,
    vkey: Seq<u8>,
    proof: Seq<u8>,
    r: Result<(), VerifyError>,
)
    requires
        0 <= field < 3,
        0 <= i < (if field == 0 {
            pub_key.len()
        } else if field == 1 {
            message.len()
        } else {
            signature.len()
        }),
        v != (if field == 0 {
            pub_key[i]
        } else if field == 1 {
            message[i]
        } else {
            signature[i]
        }),
    ensures
        ({
            let (p2, m2, s2) = alter_field(pub_key, message, signature, field, i, v);
            &&& public_values_encoding(p2, m2, s2) != public_values_encoding(pub_key, message, signature)
            &&& signature_flow_outcome(
                r,
                key,
                p2,
                m2,
                s2,
                vkey,
                public_values_encoding(pub_key, message, signature),
                proof,
            ) ==> r == Err::<(), VerifyError>(VerifyError::PublicValuesMismatch)
        }),
{
    let (p2, m2, s2) = alter_field(pub_key, message, signature, field, i, v);
    let e1 = public_values_encoding(pub_key, message, signature);
    let e2 = public_values_encoding(p2, m2, s2);
    let base: int = if field == 0 {
        128
    } else if field == 1 {
        128 + tail_len(pub_key.len()) as int
    } else {
        128 + tail_len(pub_key.len()) as int + tail_len(message.len()) as int
    };
    let k = base + 32 + i;
    assert(bytes_tail(pub_key).len() == tail_len(pub_key.len()));
    assert(bytes_tail(message).len() == tail_len(message.len()));
    assert(e1[k] != e2[k]);
}

/// Selector gate: when the public values are consistent, a proof whose
/// first four bytes differ from the Groth16 selector is rejected with
/// `WrongSelector`, whatever its points; the error reports both selectors.
pub proof fn lemma_wrong_selector_rejected(
    r: Result<(), VerifyError>,
    key: VerifyingKeyConstants,
    pub_key: Seq<u8>,
    message: Seq<u8>,
    signature: Seq<u8>,
    vkey: Seq<u8>,
    proof: Seq<u8>,
)
    requires
        proof.len() >= 4,
        proof.subrange(0, 4) != GROTH16_SELECTOR@,
        signature_flow_outcome(
            r,
            key,
            pub_key,
            message,
            signature,
            vkey,
            public_values_encoding(pub_key, message, signature),
            proof,
        ),
    ensures
        r matches Err(VerifyError::WrongSelector { received, expected }) && received@ == proof.subrange(0, 4)
            && expected@ == GROTH16_SELECTOR@,
{
}

/// Length boundary: once the public values are consistent and the selector
/// matches, the proof is too short exactly when it has fewer than 260 bytes
/// (`PROOF_MIN_LEN`: the selector and eight 32-byte words).
pub proof fn lemma_proof_length_boundary(
    r: Result<(), VerifyError>,
    key: VerifyingKeyConstants,
    pub_key: Seq<u8>,
    message: Seq<u8>,
    signature: Seq<u8>,
    vkey: Seq<u8>,
    proof: Seq<u8>,
)
    requires
        has_selector(proof, GROTH16_SELECTOR@),
        signature_flow_outcome(
            r,
            key,
            pub_key,
            message,
            signature,
            vkey,
            public_values_encoding(pub_key, message, signature),
            proof,
        ),
    ensures
        r == Err::<(), VerifyError>(VerifyError::ProofTooShort) <==> proof.len() < PROOF_MIN_LEN,
{
}

} // verus!
