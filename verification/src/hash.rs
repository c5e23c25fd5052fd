//! Hashes of nonces as drillx computes them, and their difficulty.

use drillx::equix::SolverMemory;
use vstd::array::spec_array_fill_for_copy_type;
use vstd::bytes::lemma_auto_spec_u64_to_from_le_bytes;
use vstd::bytes::spec_u64_to_le_bytes;
use vstd::bytes::u64_to_le_bytes;
use vstd::prelude::*;

verus! {

/// The solver's scratch memory, `equix::SolverMemory`.
#[verifier::external_type_specification]
#[verifier::external_body]
pub struct ExSolverMemory(SolverMemory);

/// What hashing one nonce gives: the digest `d`, which a solution carries,
/// and the hash `h`, whose leading zero bits are the difficulty.
#[derive(Clone, Copy, Debug, PartialEq, Eq)]
pub struct HashResult {
    pub d: [u8; 16],
    pub h: [u8; 32],
}

/// The result of `drillx::hash_with_memory` on the 32 bytes of a challenge
/// and the eight bytes of a nonce: the hash, or `None` where drillx finds no
/// solution for the two and reports an error.
pub uninterp spec fn drillx_hash(challenge: Seq<u8>, nonce: Seq<u8>) -> Option<HashResult>;

/// Number of leading zero bits of one byte.
pub open spec fn byte_leading_zeros(b: u8) -> nat {
    if b >= 128 {
        0
    } else if b >= 64 {
        1
    } else if b >= 32 {
        2
    } else if b >= 16 {
        3
    } else if b >= 8 {
        4
    } else if b >= 4 {
        5
    } else if b >= 2 {
        6
    } else if b >= 1 {
        7
    } else {
        8
    }
}

/// Number of zero bits before the first one bit of `bytes`, read from the
/// first byte on and in each byte from its highest bit.
pub open spec fn leading_zero_bits(bytes: Seq<u8>) -> nat
    decreases bytes.len(),
{
    if bytes.len() == 0 {
        0
    } else if bytes[0] == 0 {
        8 + leading_zero_bits(bytes.skip(1))
    } else {
        byte_leading_zeros(bytes[0])
    }
}

/// A string of bytes has at most eight leading zero bits for each byte.
pub proof fn lemma_leading_zero_bits_bound(bytes: Seq<u8>)
    ensures
        leading_zero_bits(bytes) <= 8 * bytes.len(),
    decreases bytes.len(),
{
    if bytes.len() > 0 && bytes[0] == 0 {
        lemma_leading_zero_bits_bound(bytes.skip(1));
    }
}

/// The hash that drillx gives for `nonce` under `challenge`, the nonce
/// written as eight little-endian bytes.
pub open spec fn hash_of(challenge: [u8; 32], nonce: u64) -> Option<HashResult> {
    drillx_hash(challenge@, spec_u64_to_le_bytes(nonce))
}

/// Calls `drillx::hash_with_memory`. Trusted: what comes back depends on
/// the challenge and the nonce bytes alone, not on what the memory held; an
/// error of drillx comes back as `None`.
#[verifier::external_body]
fn hash_with_memory(memory: &mut SolverMemory, challenge: &[u8; 32], nonce: &[u8; 8]) -> (r: Option<
    HashResult,
>)
    ensures
        r == drillx_hash(challenge@, nonce@),
{
    match drillx::hash_with_memory(memory, challenge, nonce) {
        Ok(hx) => Some(HashResult { d: hx.d, h: hx.h }),
        Err(_) => None,
    }
}

/// Calls `drillx::difficulty`. Trusted: it counts the leading zero bits of
/// the 32 bytes.
#[verifier::external_body]
fn leading_zeros(hash: [u8; 32]) -> (r: u32)
    ensures
        r == leading_zero_bits(hash@),
{
    drillx::difficulty(hash)
}

/// The eight little-endian bytes of a nonce.
pub fn nonce_bytes(nonce: u64) -> (bytes: [u8; 8])
    ensures
        bytes@ == spec_u64_to_le_bytes(nonce),
{
    let v = u64_to_le_bytes(nonce);
    proof {
        lemma_auto_spec_u64_to_from_le_bytes();
    }
    let bytes = [v[0], v[1], v[2], v[3], v[4], v[5], v[6], v[7]];
    assert(bytes@ =~= v@);
    bytes
}

/// Hashes one nonce under a challenge.
pub fn hash_nonce(memory: &mut SolverMemory, challenge: &[u8; 32], nonce: u64) -> (r: Option<
    HashResult,
>)
    ensures
        r == hash_of(*challenge, nonce),
{
    let bytes = nonce_bytes(nonce);
    hash_with_memory(memory, challenge, &bytes)
}

impl HashResult {
    /// The difficulty of this hash: the leading zero bits of `h`.
    pub open spec fn spec_difficulty(&self) -> nat {
        leading_zero_bits(self.h@)
    }

    /// The hash that a worker holds before it has found any: all zero bytes.
    pub open spec fn spec_default() -> HashResult {
        HashResult {
            d: spec_array_fill_for_copy_type::<u8, 16>(0u8),
            h: spec_array_fill_for_copy_type::<u8, 32>(0u8),
        }
    }

    /// No difficulty exceeds the 256 bits of the hash.
    pub proof fn lemma_difficulty_bound(self)
        ensures
            self.spec_difficulty() <= 256,
    {
        lemma_leading_zero_bits_bound(self.h@);
    }

    /// The difficulty of this hash.
    pub fn difficulty(&self) -> (r: u32)
        ensures
            r == self.spec_difficulty(),
            r <= 256,
    {
        proof {
            self.lemma_difficulty_bound();
        }
        leading_zeros(self.h)
    }
}

impl Default for HashResult {
    fn default() -> (r: HashResult)
        ensures
            r == HashResult::spec_default(),
    {
        HashResult { d: [0u8; 16], h: [0u8; 32] }
    }
}

} // verus!
