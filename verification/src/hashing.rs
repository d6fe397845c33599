//! Transcript hashing and domain-separated randomizer derivation.
//!
//! The handshake transcript is the fixed-order concatenation of the public key
//! material; each randomizer is the SHA-256 digest of the transcript extended
//! with a single domain-separation byte, so all randomizers are independent
//! functions of the same transcript prefix.

use vstd::prelude::*;
use crate::bytes::append_bytes;
use sha2::Digest;

verus! {

/// The SHA-256 digest of `data`.
pub uninterp spec fn sha256_of(data: Seq<u8>) -> Seq<u8>;

/// Relies on `sha2::Sha256` through `Digest::digest`: the 32-byte digest is a
/// pure function of the input bytes.
#[verifier::external_body]
fn sha256(data: &[u8]) -> (r: [u8; 32])
    ensures
        r@ == sha256_of(data@),
{
    sha2::Sha256::digest(data).into()
}

/// Finalizes a copy of the transcript hash after appending the single
/// domain-separation byte `index`, yielding the randomizer for that index.
pub fn derive_randomizer(transcript: &Vec<u8>, index: u8) -> (r: [u8; 32])
    ensures
        r@ == sha256_of(transcript@.push(index)),
{
    let mut data: Vec<u8> = Vec::new();
    append_bytes(&mut data, transcript.as_slice());
    data.push(index);
    proof {
        assert(data@ =~= transcript@.push(index));
    }
    sha256(data.as_slice())
}

} // verus!
