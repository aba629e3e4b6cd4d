//! The public values: the ABI encoding of the tuple `(bytes pub_key, bytes
//! message, bytes signature)`, as an on-chain contract decodes it.
use vstd::prelude::*;
use crate::bytes::{bytes_equal, zeros};
use crate::error::VerifyError;

verus! {

/// The eight big-endian bytes of `n`.
pub open spec fn u64_be_bytes(n: u64) -> Seq<u8> {
    seq![
        (n >> 56u64) as u8,
        (n >> 48u64) as u8,
        (n >> 40u64) as u8,
        (n >> 32u64) as u8,
        (n >> 24u64) as u8,
        (n >> 16u64) as u8,
        (n >> 8u64) as u8,
        n as u8,
    ]
}

/// One 32-byte ABI word holding `n` as a big-endian integer.
pub open spec fn abi_word(n: u64) -> Seq<u8> {
    zeros(24) + u64_be_bytes(n)
}

/// How many zero bytes follow `n` bytes of data to reach a word boundary.
pub open spec fn pad_len(n: nat) -> nat {
    ((32 - n % 32) % 32) as nat
}

/// The tail of a dynamic `bytes` value: its length word, then its bytes
/// padded with zeros to a whole number of words.
pub open spec fn bytes_tail(b: Seq<u8>) -> Seq<u8> {
    abi_word(b.len() as u64) + b + zeros(pad_len(b.len()))
}

/// Length of `bytes_tail` for `n` bytes of data.
pub open spec fn tail_len(n: nat) -> nat {
    32 + n + pad_len(n)
}

/// Length of the whole encoding for fields of the given lengths.
pub open spec fn encoded_len(a: nat, b: nat, c: nat) -> nat {
    128 + tail_len(a) + tail_len(b) + tail_len(c)
}

/// The encoding of the single value `(pub_key, message, signature)`: the
/// offset of the tuple, the three offsets of its fields relative to the
/// tuple's start, then the three tails in declaration order.
pub open spec fn public_values_encoding(pub_key: Seq<u8>, message: Seq<u8>, signature: Seq<u8>) -> Seq<u8> {
    let t1 = bytes_tail(pub_key);
    let t2 = bytes_tail(message);
    let t3 = bytes_tail(signature);
    abi_word(32) + abi_word(96) + abi_word((96 + t1.len()) as u64) + abi_word(
        (96 + t1.len() + t2.len()) as u64,
    ) + t1 + t2 + t3
}

pub proof fn lemma_bytes_tail_len(b: Seq<u8>)
    ensures
        bytes_tail(b).len() == tail_len(b.len()),
{
}

pub proof fn lemma_encoding_len(pub_key: Seq<u8>, message: Seq<u8>, signature: Seq<u8>)
    ensures
        public_values_encoding(pub_key, message, signature).len() == encoded_len(
            pub_key.len(),
            message.len(),
            signature.len(),
        ),
{
}

/// Appends one ABI word holding `n`.
fn push_word(out: &mut Vec<u8>, n: u64)
    ensures
        final(out)@ == old(out)@ + abi_word(n),
{
    let mut i: usize = 0;
    while i < 24
        invariant
            i <= 24,
            out@ == old(out)@ + zeros(i as nat),
        decreases 24 - i,
    {
        out.push(0u8);
        i = i + 1;
        assert(out@ =~= old(out)@ + zeros(i as nat));
    }
    out.push((n >> 56u64) as u8);
    out.push((n >> 48u64) as u8);
    out.push((n >> 40u64) as u8);
    out.push((n >> 32u64) as u8);
    out.push((n >> 24u64) as u8);
    out.push((n >> 16u64) as u8);
    out.push((n >> 8u64) as u8);
    out.push(n as u8);
    assert(out@ =~= old(out)@ + abi_word(n));
}

/// Appends the tail of the dynamic `bytes` value `b`.
fn push_tail(out: &mut Vec<u8>, b: &[u8])
    ensures
        final(out)@ == old(out)@ + bytes_tail(b@),
{
    push_word(out, b.len() as u64);
    let ghost head = out@;
    let mut i: usize = 0;
    while i < b.len()
        invariant
            i <= b@.len(),
            out@ == head + b@.subrange(0, i as int),
        decreases b@.len() - i,
    {
        out.push(b[i]);
        i = i + 1;
        assert(out@ =~= head + b@.subrange(0, i as int));
    }
    assert(b@.subrange(0, b@.len() as int) =~= b@);
    let pad: usize = (32 - b.len() % 32) % 32;
    let ghost body = out@;
    let mut k: usize = 0;
    while k < pad
        invariant
            k <= pad,
            out@ == body + zeros(k as nat),
        decreases pad - k,
    {
        out.push(0u8);
        k = k + 1;
        assert(out@ =~= body + zeros(k as nat));
    }
    assert(out@ =~= old(out)@ + bytes_tail(b@));
}

/// `encoded_len` of the three lengths, computed without overflow.
pub fn public_values_len(a: usize, b: usize, c: usize) -> (r: u128)
    ensures
        r == encoded_len(a as nat, b as nat, c as nat),
{
    let pa = ((32 - a % 32) % 32) as u128;
    let pb = ((32 - b % 32) % 32) as u128;
    let pc = ((32 - c % 32) % 32) as u128;
    128 + (32 + a as u128 + pa) + (32 + b as u128 + pb) + (32 + c as u128 + pc)
}

/// The public values that commit to `(pub_key, message, signature)`.
pub fn encode_public_values(pub_key: &[u8], message: &[u8], signature: &[u8]) -> (r: Vec<u8>)
    requires
        encoded_len(pub_key@.len(), message@.len(), signature@.len()) <= usize::MAX,
    ensures
        r@ == public_values_encoding(pub_key@, message@, signature@),
{
    let t1: u64 = (32 + pub_key.len() + (32 - pub_key.len() % 32) % 32) as u64;
    let t2: u64 = (32 + message.len() + (32 - message.len() % 32) % 32) as u64;
    let mut out: Vec<u8> = Vec::new();
    push_word(&mut out, 32);
    push_word(&mut out, 96);
    push_word(&mut out, 96 + t1);
    push_word(&mut out, 96 + t1 + t2);
    push_tail(&mut out, pub_key);
    push_tail(&mut out, message);
    push_tail(&mut out, signature);
    proof {
        lemma_bytes_tail_len(pub_key@);
        lemma_bytes_tail_len(message@);
    }
    assert(out@ =~= public_values_encoding(pub_key@, message@, signature@));
    out
}

/// What the ed25519 guest program reads: a public key, a signature and the
/// signed message.
#[derive(Debug, Clone, PartialEq, Eq)]
pub struct Ed25519VerificationData {
    pub pub_key: [u8; 32],
    pub signature: [u8; 64],
    pub message: Vec<u8>,
}

impl Ed25519VerificationData {
    /// The public values that a proof over this record commits to.
    pub fn public_values(&self) -> (r: Vec<u8>)
        requires
            encoded_len(32, self.message@.len(), 64) <= usize::MAX,
        ensures
            r@ == public_values_encoding(self.pub_key@, self.message@, self.signature@),
    {
        encode_public_values(&self.pub_key, self.message.as_slice(), &self.signature)
    }
}

/// Checks that `public_values` is exactly the encoding of the triple.
pub fn verify_public_values(pub_key: &[u8], message: &[u8], signature: &[u8], public_values: &[u8]) -> (r: Result<(), VerifyError>)
    ensures
        public_values@ == public_values_encoding(pub_key@, message@, signature@) ==> r == Ok::<(), VerifyError>(()),
        public_values@ != public_values_encoding(pub_key@, message@, signature@) ==> r == Err::<(), VerifyError>(VerifyError::PublicValuesMismatch),
{
    proof {
        lemma_encoding_len(pub_key@, message@, signature@);
    }
    if public_values_len(pub_key.len(), message.len(), signature.len()) != public_values.len() as u128 {
        return Err(VerifyError::PublicValuesMismatch);
    }
    let expected = encode_public_values(pub_key, message, signature);
    if bytes_equal(public_values, expected.as_slice()) {
        Ok(())
    } else {
        Err(VerifyError::PublicValuesMismatch)
    }
}

} // verus!
