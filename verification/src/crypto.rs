//! Trusted boundary to the token utilities: a cryptographically secure
//! random generator for raw session tokens, and the one-way hash under
//! which tokens are stored.

use rand::RngCore;
use vstd::prelude::*;

verus! {

/// The one-way digest of a byte string. The digest is a function of the
/// input bytes alone; nothing else is assumed about it.
pub uninterp spec fn hash_of(bytes: Seq<u8>) -> Seq<u8>;

/// Relies on `blake3::hash`: a 32-byte digest that depends on the input
/// bytes alone.
#[verifier::external_body]
pub(crate) fn hash_bytes(bytes: &Vec<u8>) -> (r: Vec<u8>)
    ensures
        r@ == hash_of(bytes@),
        r@.len() == 32,
{
    blake3::hash(bytes.as_slice()).as_bytes().to_vec()
}

/// Relies on `rand::rng` and `RngCore::fill_bytes` for 256 bits of
/// cryptographically secure randomness. Of a random value only the length
/// can be stated.
#[verifier::external_body]
pub(crate) fn random_token_bytes() -> (r: Vec<u8>)
    ensures
        r@.len() == 32,
{
    let mut bytes = [0u8; 32];
    rand::rng().fill_bytes(&mut bytes);
    bytes.to_vec()
}

} // verus!
