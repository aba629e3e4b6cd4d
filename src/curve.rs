//! BN254 points as plain big-endian coordinates, and the curve operations the
//! verifier needs. Each operation is carried out by arkworks; the results are
//! named by the spec functions below, over the integer coordinates.
//!
//! A coordinate is the integer its bytes spell, reduced modulo the base field
//! when it is handed to the curve. `(0, 0)` is the point at infinity, as in
//! arkworks' BN254 affine points and in the EVM precompiles.
use vstd::prelude::*;
use ark_bn254::{Bn254, Fq, Fq2, Fr, G1Affine, G2Affine};
use ark_ec::pairing::Pairing;
use ark_ec::CurveGroup;
use ark_ff::Zero;
use num_bigint::BigUint;
use crate::bytes::be_value;

verus! {

/// An affine point of the first group: big-endian coordinates `x`, `y`.
#[derive(Debug, Clone, PartialEq, Eq)]
pub struct G1Point {
    pub x: Vec<u8>,
    pub y: Vec<u8>,
}

/// An affine point of the second group: big-endian coordinates
/// `x = x0 + x1·u` and `y = y0 + y1·u`.
#[derive(Debug, Clone, PartialEq, Eq)]
pub struct G2Point {
    pub x0: Vec<u8>,
    pub x1: Vec<u8>,
    pub y0: Vec<u8>,
    pub y1: Vec<u8>,
}

impl View for G1Point {
    type V = (int, int);

    open spec fn view(&self) -> (int, int) {
        (be_value(self.x@) as int, be_value(self.y@) as int)
    }
}

impl View for G2Point {
    type V = (int, int, int, int);

    open spec fn view(&self) -> (int, int, int, int) {
        (
            be_value(self.x0@) as int,
            be_value(self.x1@) as int,
            be_value(self.y0@) as int,
            be_value(self.y1@) as int,
        )
    }
}

/// Coordinates of `k·p` in the first group, `k` taken modulo the scalar field.
pub uninterp spec fn g1_scalar_mul(p: (int, int), k: int) -> (int, int);

/// Coordinates of `p + q` in the first group.
pub uninterp spec fn g1_sum(p: (int, int), q: (int, int)) -> (int, int);

/// Whether the product of the pairings `e(g1[i], g2[i])` is the identity of the
/// target group; `None` where the Miller loop yields zero and the final
/// exponentiation is undefined.
pub uninterp spec fn bn254_pairing_product_is_one(g1: Seq<(int, int)>, g2: Seq<(int, int, int, int)>) -> Option<bool>;

/// Relies on `Affine * Fr` and `into_affine` of ark-ec (BN254 first group):
/// the scalar multiple of `p` by the big-endian integer `k`. Coordinates
/// enter through `Fq::from(BigUint)` and `Fr::from(BigUint)`, which reduce,
/// and leave through `BigUint::from(Fq)`.
#[verifier::external_body]
fn g1_mul(p: &G1Point, k: &[u8; 32]) -> (r: G1Point)
    ensures
        r@ == g1_scalar_mul(p@, be_value(k@) as int),
{
    let fq = |b: &Vec<u8>| Fq::from(BigUint::from_bytes_be(b));
    let base = G1Affine::new_unchecked(fq(&p.x), fq(&p.y));
    let r = (base * Fr::from(BigUint::from_bytes_be(k))).into_affine();
    G1Point { x: BigUint::from(r.x).to_bytes_be(), y: BigUint::from(r.y).to_bytes_be() }
}

/// Relies on `Affine + Affine` and `into_affine` of ark-ec (BN254 first
/// group): the sum of two points, converted as in `g1_mul`.
#[verifier::external_body]
fn g1_add(p: &G1Point, q: &G1Point) -> (r: G1Point)
    ensures
        r@ == g1_sum(p@, q@),
{
    let fq = |b: &Vec<u8>| Fq::from(BigUint::from_bytes_be(b));
    let a = G1Affine::new_unchecked(fq(&p.x), fq(&p.y));
    let b = G1Affine::new_unchecked(fq(&q.x), fq(&q.y));
    let r = (a + b).into_affine();
    G1Point { x: BigUint::from(r.x).to_bytes_be(), y: BigUint::from(r.y).to_bytes_be() }
}

/// Relies on `Bn254::multi_miller_loop` followed by
/// `Bn254::final_exponentiation` and `PairingOutput::is_zero` (what
/// `multi_pairing(..).is_zero()` computes, without its `unwrap`). Points enter
/// through `new_unchecked`: no curve or subgroup check.
#[verifier::external_body]
pub(crate) fn multi_pairing_is_one(g1: [&G1Point; 4], g2: [&G2Point; 4]) -> (r: Option<bool>)
    ensures
        r == bn254_pairing_product_is_one(
            g1@.map_values(|p: &G1Point| p@),
            g2@.map_values(|q: &G2Point| q@),
        ),
{
    let fq = |b: &Vec<u8>| Fq::from(BigUint::from_bytes_be(b));
    let a = g1.map(|p| G1Affine::new_unchecked(fq(&p.x), fq(&p.y)));
    let b = g2.map(|q| G2Affine::new_unchecked(Fq2::new(fq(&q.x0), fq(&q.x1)), Fq2::new(fq(&q.y0), fq(&q.y1))));
    let f = Bn254::multi_miller_loop(a, b);
    Bn254::final_exponentiation(f).map(|out| out.is_zero())
}

/// `constant + w0·basis0 + w1·basis1`, the weights read as big-endian integers.
pub open spec fn linear_combination(
    constant: (int, int),
    basis0: (int, int),
    basis1: (int, int),
    w0: Seq<u8>,
    w1: Seq<u8>,
) -> (int, int) {
    g1_sum(
        g1_sum(constant, g1_scalar_mul(basis0, be_value(w0) as int)),
        g1_scalar_mul(basis1, be_value(w1) as int),
    )
}

/// Computes `constant + w0·basis0 + w1·basis1` in the first group.
pub fn g1_linear_combination(constant: &G1Point, basis0: &G1Point, basis1: &G1Point, w0: &[u8; 32], w1: &[u8; 32]) -> (r: G1Point)
    ensures
        r@ == linear_combination(constant@, basis0@, basis1@, w0@, w1@),
{
    let t0 = g1_mul(basis0, w0);
    let acc = g1_add(constant, &t0);
    let t1 = g1_mul(basis1, w1);
    g1_add(&acc, &t1)
}

} // verus!
