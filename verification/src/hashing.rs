//! Hashing a nonce against a challenge, and scoring the hash.

use vstd::prelude::*;
use vstd::std_specs::bits::u8_leading_zeros;

verus! {

/// `equix::SolverMemory`: the scratch space of the Equi-X solver, reused
/// from one hash to the next.
#[verifier::external_type_specification]
#[verifier::external_body]
pub struct ExSolverMemory(drillx::equix::SolverMemory);

/// What hashing one nonce gives: the Equi-X digest and the Keccak hash
/// taken over it.
#[derive(Clone, Copy, Debug, PartialEq, Eq)]
pub struct HashResult {
    pub digest: [u8; 16],
    pub hash: [u8; 32],
}

/// What `drillx::hash_with_memory` makes of a challenge and the eight bytes
/// of a nonce: the Equi-X digest and the Keccak hash over it, or `None`
/// where it finds no Equi-X solution for them.
pub uninterp spec fn drillx_hash(challenge: Seq<u8>, nonce: Seq<u8>) -> Option<(Seq<u8>, Seq<u8>)>;

/// The number of zero bits at the front of a byte string.
pub open spec fn leading_zero_bits(bytes: Seq<u8>) -> nat
    decreases bytes.len(),
{
    if bytes.len() == 0 {
        0
    } else if bytes[0] == 0 {
        8 + leading_zero_bits(bytes.drop_first())
    } else {
        u8_leading_zeros(bytes[0]) as nat
    }
}

/// Fresh solver memory, from `equix::SolverMemory::new`. Nothing is claimed
/// of its contents: the solver overwrites them.
#[verifier::external_body]
pub(crate) fn new_solver_memory() -> drillx::equix::SolverMemory {
    drillx::equix::SolverMemory::new()
}

/// Calls `drillx::hash_with_memory`. The claim is that the outcome depends
/// on the challenge and the nonce bytes alone, never on what the scratch
/// memory held, and that a failure of either kind is reported as `None`.
#[verifier::external_body]
pub(crate) fn hash_with_memory(
    memory: &mut drillx::equix::SolverMemory,
    challenge: &[u8; 32],
    nonce: &[u8; 8],
) -> (r: Option<HashResult>)
    ensures
        r matches Some(h) ==> drillx_hash(challenge@, nonce@) == Some((h.digest@, h.hash@)),
        r is None ==> drillx_hash(challenge@, nonce@) is None,
{
    match drillx::hash_with_memory(memory, challenge, nonce) {
        Ok(h) => Some(HashResult { digest: h.d, hash: h.h }),
        Err(_) => None,
    }
}

/// Calls `drillx::difficulty`, which counts the zero bits at the front of
/// the 32 bytes.
#[verifier::external_body]
pub(crate) fn difficulty(hash: [u8; 32]) -> (d: u32)
    ensures
        d == leading_zero_bits(hash@),
{
    drillx::difficulty(hash)
}

/// The little-endian bytes of a nonce, from `u64::to_le_bytes`.
#[verifier::external_body]
pub(crate) fn nonce_bytes(nonce: u64) -> (bytes: [u8; 8])
    ensures
        bytes@ == vstd::bytes::spec_u64_to_le_bytes(nonce),
{
    nonce.to_le_bytes()
}

/// A byte string has at most eight leading zero bits for each of its
/// bytes: 256 for a 32-byte hash.
pub proof fn lemma_leading_zero_bits_bound(bytes: Seq<u8>)
    ensures
        leading_zero_bits(bytes) <= 8 * bytes.len(),
    decreases bytes.len(),
{
    if bytes.len() == 0 {
    } else if bytes[0] == 0 {
        lemma_leading_zero_bits_bound(bytes.drop_first());
    } else {
        vstd::std_specs::bits::axiom_u8_leading_zeros(bytes[0]);
    }
}

} // verus!
