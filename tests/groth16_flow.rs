use sigproof_verifier::abi::encode_public_values;
use sigproof_verifier::curve::{g1_linear_combination, G1Point, G2Point};
use sigproof_verifier::error::VerifyError;
use sigproof_verifier::groth16::{check_verifier_selector, public_input_msm, verify_groth16, verify_signature_flow};
use sigproof_verifier::layout::{check_selector, decode_proof, ProofPoints, GROTH16_SELECTOR, PROOF_MIN_LEN};
use sigproof_verifier::vkey::{
    groth16_verifying_key, G1Decimal, G2Decimal, VerifyingKeyConstants, ALPHA_X, ALPHA_Y, GAMMA_NEG_X_0,
    PUB_1_Y,
};

const P_MINUS_2: &str = "21888242871839275222246405745257275088696311157297823662689037894645226208581";
const TWO_G_X: &str = "1368015179489954701390400359078579693043519447331113978918064868415326638035";
const TWO_G_Y: &str = "9918110051302171585080402603319702774565515993150576347155970296011118125764";
const H_X0: &str = "10857046999023057135944570762232829481370756359578518086990519993285655852781";
const H_X1: &str = "11559732032986387107991004021392285783925812861821192530917403151452391805634";
const H_Y0: &str = "8495653923123431417604973247489272438418190587263600148770280649306958101930";
const H_Y1: &str = "4082367875863433681332203403145435568316851327593401208105741076214120093531";

fn g1(x: &str, y: &str) -> G1Point {
    G1Decimal { x, y }.parse().unwrap()
}

fn identity() -> G1Point {
    g1("0", "0")
}

fn generator() -> G1Point {
    g1("1", "2")
}

fn h() -> G2Point {
    G2Decimal { x0: H_X0, x1: H_X1, y0: H_Y0, y1: H_Y1 }.parse().unwrap()
}

fn be32(p: &[u8]) -> [u8; 32] {
    let mut out = [0u8; 32];
    out[32 - p.len()..].copy_from_slice(p);
    out
}

fn scalar(n: u8) -> [u8; 32] {
    let mut out = [0u8; 32];
    out[31] = n;
    out
}

/// A key under which `e(A, B) · e(C, -H)` alone decides: alpha, the
/// constant and the basis are the identity, and `-delta` is `-H`.
fn toy_key() -> VerifyingKeyConstants {
    let real = groth16_verifying_key();
    VerifyingKeyConstants {
        alpha: identity(),
        neg_beta: real.neg_beta.clone(),
        neg_gamma: real.neg_gamma.clone(),
        neg_delta: real.neg_gamma.clone(),
        constant: identity(),
        basis: [identity(), identity()],
    }
}

fn proof_bytes(selector: [u8; 4], words: [[u8; 32]; 8]) -> Vec<u8> {
    let mut out = selector.to_vec();
    for w in words {
        out.extend_from_slice(&w);
    }
    out
}

fn sample_inputs() -> (Vec<u8>, Vec<u8>, Vec<u8>) {
    let mut pk = vec![0x02u8];
    pk.extend(1u8..=32);
    (pk, b"test".to_vec(), (64u8..128).collect())
}

#[test]
fn key_literals_parse_to_their_values() {
    let key = groth16_verifying_key();
    assert_eq!(key.alpha, g1(ALPHA_X, ALPHA_Y));
    assert_eq!(key.neg_gamma.x0, G1Decimal { x: GAMMA_NEG_X_0, y: "0" }.parse().unwrap().x);
    assert_eq!(key.basis[1].y, G1Decimal { x: "0", y: PUB_1_Y }.parse().unwrap().y);
    assert_eq!(key.alpha.x.len(), 32);
}

#[test]
fn decimal_parsing_rejects_non_digits() {
    assert!(G1Decimal { x: "12a", y: "1" }.parse().is_none());
    assert!(G1Decimal { x: "", y: "1" }.parse().is_none());
    assert!(G1Decimal { x: "+1", y: "1" }.parse().is_none());
    assert!(G2Decimal { x0: "1", x1: "2", y0: "3", y1: "4_0" }.parse().is_none());
    assert_eq!(G1Decimal { x: "258", y: "0" }.parse().unwrap().x, vec![1u8, 2]);
}

#[test]
fn linear_combination_doubles_the_generator() {
    let r = g1_linear_combination(&identity(), &generator(), &generator(), &scalar(1), &scalar(1));
    assert_eq!(r, g1(TWO_G_X, TWO_G_Y));
    let r = g1_linear_combination(&generator(), &generator(), &identity(), &scalar(1), &scalar(9));
    assert_eq!(r, g1(TWO_G_X, TWO_G_Y));
}

#[test]
fn linear_combination_with_zero_weights_is_the_constant() {
    let r = g1_linear_combination(&generator(), &g1(TWO_G_X, TWO_G_Y), &generator(), &scalar(0), &scalar(0));
    assert_eq!(r, generator());
}

#[test]
fn public_input_msm_uses_weights_in_order() {
    let mut key = toy_key();
    key.basis = [generator(), identity()];
    let r = public_input_msm(&key, &[scalar(2), scalar(0)]);
    assert_eq!(r, g1(TWO_G_X, TWO_G_Y));
    let r = public_input_msm(&key, &[scalar(0), scalar(2)]);
    assert_eq!(r, identity());
}

#[test]
fn pairing_accepts_a_balanced_product() {
    let key = toy_key();
    let proof = ProofPoints { a: generator(), b: h(), c: generator() };
    assert_eq!(verify_groth16(&key, &proof, &[scalar(5), scalar(7)]), Ok(()));
}

#[test]
fn pairing_rejects_a_tampered_point() {
    let key = toy_key();
    let proof = ProofPoints { a: g1(TWO_G_X, TWO_G_Y), b: h(), c: generator() };
    assert_eq!(verify_groth16(&key, &proof, &[scalar(5), scalar(7)]), Err(VerifyError::PairingCheckFailed));
    let proof = ProofPoints { a: generator(), b: h(), c: g1("1", P_MINUS_2) };
    assert_eq!(verify_groth16(&key, &proof, &[scalar(5), scalar(7)]), Err(VerifyError::PairingCheckFailed));
}

#[test]
fn pairing_rejects_the_real_key_with_a_made_up_proof() {
    let key = groth16_verifying_key();
    let proof = ProofPoints { a: generator(), b: h(), c: generator() };
    assert_eq!(verify_groth16(&key, &proof, &[scalar(1), scalar(2)]), Err(VerifyError::PairingCheckFailed));
}

#[test]
fn selector_check_reports_both_selectors() {
    let mut hash = [0u8; 32];
    hash[..4].copy_from_slice(&[1, 2, 3, 4]);
    assert_eq!(check_verifier_selector(&[1, 2, 3, 4, 9], &hash), Ok(()));
    assert_eq!(
        check_verifier_selector(&[1, 2, 3, 5], &hash),
        Err(VerifyError::WrongSelector { received: [1, 2, 3, 5], expected: [1, 2, 3, 4] })
    );
    assert_eq!(check_verifier_selector(&[1, 2, 3], &hash), Err(VerifyError::ProofTooShort));
    assert_eq!(check_selector(&GROTH16_SELECTOR, GROTH16_SELECTOR), Ok(()));
}

#[test]
fn decoder_reads_words_at_fixed_offsets() {
    let words: [[u8; 32]; 8] = core::array::from_fn(|k| scalar(k as u8 + 1));
    let bytes = proof_bytes(GROTH16_SELECTOR, words);
    assert_eq!(bytes.len(), PROOF_MIN_LEN);
    let p = decode_proof(&bytes).unwrap();
    assert_eq!(p.a.x, scalar(1).to_vec());
    assert_eq!(p.a.y, scalar(2).to_vec());
    assert_eq!(p.b.x1, scalar(3).to_vec());
    assert_eq!(p.b.x0, scalar(4).to_vec());
    assert_eq!(p.b.y1, scalar(5).to_vec());
    assert_eq!(p.b.y0, scalar(6).to_vec());
    assert_eq!(p.c.x, scalar(7).to_vec());
    assert_eq!(p.c.y, scalar(8).to_vec());
}

#[test]
fn decoder_boundary_lengths() {
    assert_eq!(decode_proof(&vec![0u8; 259]), Err(VerifyError::ProofTooShort));
    assert!(decode_proof(&vec![0u8; 260]).is_ok());
    assert!(decode_proof(&vec![0u8; 263]).is_ok());
    assert!(decode_proof(&vec![0u8; 264]).is_ok());
    assert_eq!(decode_proof(&[]), Err(VerifyError::ProofTooShort));
}

#[test]
fn flow_rejects_swapped_message_with_public_values_mismatch() {
    let key = groth16_verifying_key();
    let (pk, msg, sig) = sample_inputs();
    let pv = encode_public_values(&pk, &msg, &sig);
    let proof = proof_bytes(GROTH16_SELECTOR, [[0u8; 32]; 8]);
    assert_eq!(
        verify_signature_flow(&key, &pk, b"tset", &sig, [0u8; 32], &pv, &proof),
        Err(VerifyError::PublicValuesMismatch)
    );
}

#[test]
fn flow_rejects_flipped_selector() {
    let key = groth16_verifying_key();
    let (pk, msg, sig) = sample_inputs();
    let pv = encode_public_values(&pk, &msg, &sig);
    for i in 0..4 {
        let mut proof = proof_bytes(GROTH16_SELECTOR, [[0u8; 32]; 8]);
        proof[i] ^= 0xff;
        let mut received = GROTH16_SELECTOR;
        received[i] ^= 0xff;
        assert_eq!(
            verify_signature_flow(&key, &pk, &msg, &sig, [0u8; 32], &pv, &proof),
            Err(VerifyError::WrongSelector { received, expected: GROTH16_SELECTOR })
        );
    }
}

#[test]
fn flow_length_boundary() {
    let key = groth16_verifying_key();
    let (pk, msg, sig) = sample_inputs();
    let pv = encode_public_values(&pk, &msg, &sig);
    let mut proof = GROTH16_SELECTOR.to_vec();
    proof.resize(259, 0);
    assert_eq!(verify_signature_flow(&key, &pk, &msg, &sig, [0u8; 32], &pv, &proof), Err(VerifyError::ProofTooShort));
    assert_eq!(
        verify_signature_flow(&key, &pk, &msg, &sig, [0u8; 32], &pv, &GROTH16_SELECTOR[..3]),
        Err(VerifyError::ProofTooShort)
    );
    proof.resize(260, 0);
    assert_eq!(
        verify_signature_flow(&key, &pk, &msg, &sig, [0u8; 32], &pv, &proof),
        Err(VerifyError::PairingCheckFailed)
    );
    proof.resize(264, 0);
    assert_eq!(
        verify_signature_flow(&key, &pk, &msg, &sig, [0u8; 32], &pv, &proof),
        Err(VerifyError::PairingCheckFailed)
    );
}

#[test]
fn flow_rejects_every_tampered_coordinate_of_a_made_up_proof() {
    let key = groth16_verifying_key();
    let (pk, msg, sig) = sample_inputs();
    let pv = encode_public_values(&pk, &msg, &sig);
    let a = generator();
    let b = h();
    let words = [
        be32(&a.x), be32(&a.y), be32(&b.x1), be32(&b.x0), be32(&b.y1), be32(&b.y0), be32(&a.x), be32(&a.y),
    ];
    let base = proof_bytes(GROTH16_SELECTOR, words);
    for k in 0..8 {
        let mut proof = base.clone();
        proof[4 + 32 * k + 31] ^= 0x01;
        assert_eq!(
            verify_signature_flow(&key, &pk, &msg, &sig, [7u8; 32], &pv, &proof),
            Err(VerifyError::PairingCheckFailed)
        );
    }
}

#[test]
fn flow_is_deterministic() {
    let key = groth16_verifying_key();
    let (pk, msg, sig) = sample_inputs();
    let pv = encode_public_values(&pk, &msg, &sig);
    let proof = proof_bytes(GROTH16_SELECTOR, [[3u8; 32]; 8]);
    let first = verify_signature_flow(&key, &pk, &msg, &sig, [1u8; 32], &pv, &proof);
    let second = verify_signature_flow(&key, &pk, &msg, &sig, [1u8; 32], &pv, &proof);
    assert_eq!(first, second);
}
