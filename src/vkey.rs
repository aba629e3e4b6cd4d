//! The verifying-key constants of one compiled circuit, kept as data: the
//! coordinates are base-10 literals, parsed once into a
//! `VerifyingKeyConstants` that every verification reads.
use vstd::prelude::*;
use num_bigint::BigUint;
use crate::bytes::be_value;
use crate::curve::{G1Point, G2Point};

verus! {

/// Whether `s` is a non-empty string of ASCII decimal digits.
pub open spec fn is_decimal(s: Seq<char>) -> bool {
    s.len() > 0 && forall|i: int| 0 <= i < s.len() ==> '0' <= #[trigger] s[i] <= '9'
}

/// The integer that the decimal digits `s` spell.
pub open spec fn decimal_value(s: Seq<char>) -> nat
    decreases s.len(),
{
    if s.len() == 0 {
        0
    } else {
        decimal_value(s.drop_last()) * 10 + ((s.last() as u32 - '0' as u32) as nat)
    }
}

// The key of SP1's Groth16 verifier contract. `NEG` marks the negated
// second-group points; `_0` and `_1` are the two components of an
// extension-field coordinate.
pub const ALPHA_X: &'static str = "20491192805390485299153009773594534940189261866228447918068658471970481763042";
pub const ALPHA_Y: &'static str = "9383485363053290200918347156157836566562967994039712273449902621266178545958";
pub const BETA_NEG_X_0: &'static str = "6375614351688725206403948262868962793625744043794305715222011528459656738731";
pub const BETA_NEG_X_1: &'static str = "4252822878758300859123897981450591353533073413197771768651442665752259397132";
pub const BETA_NEG_Y_0: &'static str = "11383000245469012944693504663162918391286475477077232690815866754273895001727";
pub const BETA_NEG_Y_1: &'static str = "41207766310529818958173054109690360505148424997958324311878202295167071904";
pub const GAMMA_NEG_X_0: &'static str = "10857046999023057135944570762232829481370756359578518086990519993285655852781";
pub const GAMMA_NEG_X_1: &'static str = "11559732032986387107991004021392285783925812861821192530917403151452391805634";
pub const GAMMA_NEG_Y_0: &'static str = "13392588948715843804641432497768002650278120570034223513918757245338268106653";
pub const GAMMA_NEG_Y_1: &'static str = "17805874995975841540914202342111839520379459829704422454583296818431106115052";
pub const DELTA_NEG_X_0: &'static str = "1807939758600928081661535078044266309701426477869595321608690071623627252461";
pub const DELTA_NEG_X_1: &'static str = "13017767206419180294867239590191240882490168779777616723978810680471506089190";
pub const DELTA_NEG_Y_0: &'static str = "11385252965472363874004017020523979267854101512663014352368174256411716100034";
pub const DELTA_NEG_Y_1: &'static str = "707821308472421780425082520239282952693670279239989952629124761519869475067";
pub const CONSTANT_X: &'static str = "17203997695518370725253383800612862082040222186834248316724952811913305748878";
pub const CONSTANT_Y: &'static str = "282619892079818506885924724237935832196325815176482254129420869757043108110";
pub const PUB_0_X: &'static str = "2763789253671512309630211343474627955637016507408470052385640371173442321228";
pub const PUB_0_Y: &'static str = "7070003421332099028511324531870215047017050364545890942981741487547942466073";
pub const PUB_1_X: &'static str = "2223923876691923064813371578678400285087400227347901303400514986210692294428";
pub const PUB_1_Y: &'static str = "3228708299174762375496115493137156328822199374794870011715145604387710550517";

/// Whether `s` is a non-empty string of ASCII decimal digits.
pub fn is_decimal_str(s: &str) -> (r: bool)
    ensures
        r == is_decimal(s@),
{
    let n = s.unicode_len();
    if n == 0 {
        return false;
    }
    let mut i: usize = 0;
    while i < n
        invariant
            n == s@.len(),
            i <= n,
            forall|j: int| 0 <= j < i ==> '0' <= #[trigger] s@[j] <= '9',
        decreases n - i,
    {
        let c = s.get_char(i);
        if c < '0' || c > '9' {
            return false;
        }
        i = i + 1;
    }
    true
}

/// Relies on `num_bigint::BigUint::parse_bytes` in radix 10 and
/// `BigUint::to_bytes_be`: a string of decimal digits parses to its value,
/// returned as big-endian bytes.
#[verifier::external_body]
fn parse_decimal(s: &str) -> (r: Option<Vec<u8>>)
    ensures
        is_decimal(s@) ==> r is Some && be_value(r->0@) == decimal_value(s@),
{
    BigUint::parse_bytes(s.as_bytes(), 10).map(|v| v.to_bytes_be())
}

/// The verifying key: `alpha`, the negated `beta`, `gamma` and `delta`, and
/// the constant and basis points of the public-input combination.
#[derive(Debug, Clone, PartialEq, Eq)]
pub struct VerifyingKeyConstants {
    pub alpha: G1Point,
    pub neg_beta: G2Point,
    pub neg_gamma: G2Point,
    pub neg_delta: G2Point,
    pub constant: G1Point,
    pub basis: [G1Point; 2],
}

/// The coordinates of a first-group point, as decimal literals.
pub struct G1Decimal<'a> {
    pub x: &'a str,
    pub y: &'a str,
}

/// The coordinates of a second-group point, as decimal literals.
pub struct G2Decimal<'a> {
    pub x0: &'a str,
    pub x1: &'a str,
    pub y0: &'a str,
    pub y1: &'a str,
}

impl<'a> G1Decimal<'a> {
    pub open spec fn spec_value(&self) -> (int, int) {
        (decimal_value(self.x@) as int, decimal_value(self.y@) as int)
    }

    pub open spec fn is_valid(&self) -> bool {
        is_decimal(self.x@) && is_decimal(self.y@)
    }

    /// Parses both coordinates.
    pub fn parse(&self) -> (r: Option<G1Point>)
        ensures
            r is Some <==> self.is_valid(),
            r is Some ==> r->0@ == self.spec_value(),
    {
        if !is_decimal_str(self.x) || !is_decimal_str(self.y) {
            return None;
        }
        let x = parse_decimal(self.x);
        let y = parse_decimal(self.y);
        match (x, y) {
            (Some(x), Some(y)) => Some(G1Point { x, y }),
            _ => None,
        }
    }
}

impl<'a> G2Decimal<'a> {
    pub open spec fn spec_value(&self) -> (int, int, int, int) {
        (
            decimal_value(self.x0@) as int,
            decimal_value(self.x1@) as int,
            decimal_value(self.y0@) as int,
            decimal_value(self.y1@) as int,
        )
    }

    pub open spec fn is_valid(&self) -> bool {
        is_decimal(self.x0@) && is_decimal(self.x1@) && is_decimal(self.y0@) && is_decimal(self.y1@)
    }

    /// Parses the four coordinates.
    pub fn parse(&self) -> (r: Option<G2Point>)
        ensures
            r is Some <==> self.is_valid(),
            r is Some ==> r->0@ == self.spec_value(),
    {
        if !is_decimal_str(self.x0) || !is_decimal_str(self.x1) || !is_decimal_str(self.y0)
            || !is_decimal_str(self.y1) {
            return None;
        }
        let x0 = parse_decimal(self.x0);
        let x1 = parse_decimal(self.x1);
        let y0 = parse_decimal(self.y0);
        let y1 = parse_decimal(self.y1);
        match (x0, x1, y0, y1) {
            (Some(x0), Some(x1), Some(y0), Some(y1)) => Some(G2Point { x0, x1, y0, y1 }),
            _ => None,
        }
    }
}

impl VerifyingKeyConstants {
    /// Parses a key from its decimal coordinates.
    pub fn from_decimal(
        alpha: &G1Decimal,
        neg_beta: &G2Decimal,
        neg_gamma: &G2Decimal,
        neg_delta: &G2Decimal,
        constant: &G1Decimal,
        basis0: &G1Decimal,
        basis1: &G1Decimal,
    ) -> (r: Option<VerifyingKeyConstants>)
        ensures
            r is Some <==> (alpha.is_valid() && neg_beta.is_valid() && neg_gamma.is_valid()
                && neg_delta.is_valid() && constant.is_valid() && basis0.is_valid()
                && basis1.is_valid()),
            r is Some ==> {
                let k = r->0;
                &&& k.alpha@ == alpha.spec_value()
                &&& k.neg_beta@ == neg_beta.spec_value()
                &&& k.neg_gamma@ == neg_gamma.spec_value()
                &&& k.neg_delta@ == neg_delta.spec_value()
                &&& k.constant@ == constant.spec_value()
                &&& k.basis[0]@ == basis0.spec_value()
                &&& k.basis[1]@ == basis1.spec_value()
            },
    {
        let alpha = alpha.parse();
        let neg_beta = neg_beta.parse();
        let neg_gamma = neg_gamma.parse();
        let neg_delta = neg_delta.parse();
        let constant = constant.parse();
        let basis0 = basis0.parse();
        let basis1 = basis1.parse();
        match (alpha, neg_beta, neg_gamma, neg_delta, constant, basis0, basis1) {
            (Some(alpha), Some(neg_beta), Some(neg_gamma), Some(neg_delta), Some(constant), Some(b0), Some(b1)) => {
                Some(VerifyingKeyConstants { alpha, neg_beta, neg_gamma, neg_delta, constant, basis: [b0, b1] })
            },
            _ => None,
        }
    }
}

/// Every coordinate literal of the key is a decimal number.
pub proof fn lemma_key_literals_decimal()
    ensures
        is_decimal(ALPHA_X@),
        is_decimal(ALPHA_Y@),
        is_decimal(BETA_NEG_X_0@),
        is_decimal(BETA_NEG_X_1@),
        is_decimal(BETA_NEG_Y_0@),
        is_decimal(BETA_NEG_Y_1@),
        is_decimal(GAMMA_NEG_X_0@),
        is_decimal(GAMMA_NEG_X_1@),
        is_decimal(GAMMA_NEG_Y_0@),
        is_decimal(GAMMA_NEG_Y_1@),
        is_decimal(DELTA_NEG_X_0@),
        is_decimal(DELTA_NEG_X_1@),
        is_decimal(DELTA_NEG_Y_0@),
        is_decimal(DELTA_NEG_Y_1@),
        is_decimal(CONSTANT_X@),
        is_decimal(CONSTANT_Y@),
        is_decimal(PUB_0_X@),
        is_decimal(PUB_0_Y@),
        is_decimal(PUB_1_X@),
        is_decimal(PUB_1_Y@),
{
    reveal_strlit("20491192805390485299153009773594534940189261866228447918068658471970481763042");
    reveal_strlit("9383485363053290200918347156157836566562967994039712273449902621266178545958");
    reveal_strlit("6375614351688725206403948262868962793625744043794305715222011528459656738731");
    reveal_strlit("4252822878758300859123897981450591353533073413197771768651442665752259397132");
    reveal_strlit("11383000245469012944693504663162918391286475477077232690815866754273895001727");
    reveal_strlit("41207766310529818958173054109690360505148424997958324311878202295167071904");
    reveal_strlit("10857046999023057135944570762232829481370756359578518086990519993285655852781");
    reveal_strlit("11559732032986387107991004021392285783925812861821192530917403151452391805634");
    reveal_strlit("13392588948715843804641432497768002650278120570034223513918757245338268106653");
    reveal_strlit("17805874995975841540914202342111839520379459829704422454583296818431106115052");
    reveal_strlit("1807939758600928081661535078044266309701426477869595321608690071623627252461");
    reveal_strlit("13017767206419180294867239590191240882490168779777616723978810680471506089190");
    reveal_strlit("11385252965472363874004017020523979267854101512663014352368174256411716100034");
    reveal_strlit("707821308472421780425082520239282952693670279239989952629124761519869475067");
    reveal_strlit("17203997695518370725253383800612862082040222186834248316724952811913305748878");
    reveal_strlit("282619892079818506885924724237935832196325815176482254129420869757043108110");
    reveal_strlit("2763789253671512309630211343474627955637016507408470052385640371173442321228");
    reveal_strlit("7070003421332099028511324531870215047017050364545890942981741487547942466073");
    reveal_strlit("2223923876691923064813371578678400285087400227347901303400514986210692294428");
    reveal_strlit("3228708299174762375496115493137156328822199374794870011715145604387710550517");
}

/// The Groth16 verifying key of the SP1 verifier contract.
pub fn groth16_verifying_key() -> (r: VerifyingKeyConstants)
    ensures
        r.alpha@ == (decimal_value(ALPHA_X@) as int, decimal_value(ALPHA_Y@) as int),
        r.neg_beta@ == (
            decimal_value(BETA_NEG_X_0@) as int,
            decimal_value(BETA_NEG_X_1@) as int,
            decimal_value(BETA_NEG_Y_0@) as int,
            decimal_value(BETA_NEG_Y_1@) as int,
        ),
        r.neg_gamma@ == (
            decimal_value(GAMMA_NEG_X_0@) as int,
            decimal_value(GAMMA_NEG_X_1@) as int,
            decimal_value(GAMMA_NEG_Y_0@) as int,
            decimal_value(GAMMA_NEG_Y_1@) as int,
        ),
        r.neg_delta@ == (
            decimal_value(DELTA_NEG_X_0@) as int,
            decimal_value(DELTA_NEG_X_1@) as int,
            decimal_value(DELTA_NEG_Y_0@) as int,
            decimal_value(DELTA_NEG_Y_1@) as int,
        ),
        r.constant@ == (decimal_value(CONSTANT_X@) as int, decimal_value(CONSTANT_Y@) as int),
        r.basis[0]@ == (decimal_value(PUB_0_X@) as int, decimal_value(PUB_0_Y@) as int),
        r.basis[1]@ == (decimal_value(PUB_1_X@) as int, decimal_value(PUB_1_Y@) as int),
{
    proof {
        lemma_key_literals_decimal();
    }
    let alpha = G1Decimal { x: ALPHA_X, y: ALPHA_Y };
    let neg_beta = G2Decimal { x0: BETA_NEG_X_0, x1: BETA_NEG_X_1, y0: BETA_NEG_Y_0, y1: BETA_NEG_Y_1 };
    let neg_gamma = G2Decimal { x0: GAMMA_NEG_X_0, x1: GAMMA_NEG_X_1, y0: GAMMA_NEG_Y_0, y1: GAMMA_NEG_Y_1 };
    let neg_delta = G2Decimal { x0: DELTA_NEG_X_0, x1: DELTA_NEG_X_1, y0: DELTA_NEG_Y_0, y1: DELTA_NEG_Y_1 };
    let constant = G1Decimal { x: CONSTANT_X, y: CONSTANT_Y };
    let basis0 = G1Decimal { x: PUB_0_X, y: PUB_0_Y };
    let basis1 = G1Decimal { x: PUB_1_X, y: PUB_1_Y };
    let key = VerifyingKeyConstants::from_decimal(
        &alpha,
        &neg_beta,
        &neg_gamma,
        &neg_delta,
        &constant,
        &basis0,
        &basis1,
    );
    key.unwrap()
}

} // verus!
