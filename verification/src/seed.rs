//! The seed two parties share: a hash of both public keys.

use crate::vrf::{public_key_bytes, public_key_to_bytes};
use schnorrkel::PublicKey;
use vstd::prelude::*;

verus! {

/// The 32 bytes of the 256-bit XX hash of `data`.
pub uninterp spec fn twox_256_digest(data: Seq<u8>) -> Seq<u8>;

/// `sp_core::twox_256`: the 64-bit XX hashes of the data under the seeds 0,
/// 1, 2 and 3, each as eight little-endian bytes.
#[verifier::external_body]
#[allow(deprecated)]
pub(crate) fn twox_256(data: &[u8]) -> (digest: [u8; 32])
    ensures
        digest@ == twox_256_digest(data@),
{
    sp_core::twox_256(data)
}

/// One byte string after another.
pub fn join(first: &[u8], second: &[u8]) -> (joined: Vec<u8>)
    ensures
        joined@ == first@ + second@,
{
    let mut joined: Vec<u8> = Vec::new();
    let mut i: usize = 0;
    while i < first.len()
        invariant
            i <= first@.len(),
            joined@ == first@.subrange(0, i as int),
        decreases first@.len() - i,
    {
        joined.push(first[i]);
        assert(joined@ =~= first@.subrange(0, i + 1));
        i = i + 1;
    }
    assert(joined@ =~= first@);
    let mut k: usize = 0;
    while k < second.len()
        invariant
            k <= second@.len(),
            joined@ == first@ + second@.subrange(0, k as int),
        decreases second@.len() - k,
    {
        joined.push(second[k]);
        assert(joined@ =~= first@ + second@.subrange(0, k + 1));
        k = k + 1;
    }
    assert(joined@ =~= first@ + second@);
    joined
}

/// The seed of a game between the holders of two public keys: the hash of
/// the first key's encoding followed by the second's. The order matters.
pub fn create_initial_hash(public_key_1: &PublicKey, public_key_2: &PublicKey) -> (seed: [u8; 32])
    ensures
        seed@ == twox_256_digest(public_key_bytes(*public_key_1) + public_key_bytes(*public_key_2)),
{
    let first_bytes = public_key_to_bytes(public_key_1);
    let second_bytes = public_key_to_bytes(public_key_2);
    let joined_bytes = join(&first_bytes, &second_bytes);
    twox_256(joined_bytes.as_slice())
}

} // verus!
