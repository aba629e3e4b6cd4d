//! Verification of BN254 Groth16 proofs of signature checks.
//!
//! Modules, leaves first: `bytes`, `abi` (public-values encoding), `digest`,
//! `curve`, `vkey` (key constants), `layout` (proof buffer), `groth16`.
pub mod bytes;
pub mod error;
pub mod abi;
pub mod digest;
pub mod curve;
pub mod vkey;
pub mod layout;
pub mod groth16;
