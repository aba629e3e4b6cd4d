use vstd::prelude::*;

verus! {

/// Why a proof was rejected. Every kind is an ordinary result: no input makes
/// the verifier panic.
#[derive(Debug, Clone, Copy, PartialEq, Eq)]
pub enum VerifyError {
    /// The supplied public-values blob is not the encoding of the triple.
    PublicValuesMismatch,
    /// The proof's leading four bytes are not the expected selector.
    WrongSelector { received: [u8; 4], expected: [u8; 4] },
    /// The proof buffer is shorter than its fixed layout.
    ProofTooShort,
    /// The pairing product is not the identity of the target group.
    PairingCheckFailed,
}

} // verus!
