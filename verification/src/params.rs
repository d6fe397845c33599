//! The immutable handshake parameter bundle and the transcript it induces.

use vstd::prelude::*;

verus! {

/// An X25519 key pair, both halves as raw 32-byte strings.
pub struct KeyPairBytes {
    /// The private scalar bytes.
    pub private_key: [u8; 32],
    /// The public Montgomery u-coordinate bytes.
    pub public_key: [u8; 32],
}

/// The read-only parameter bundle for Alice's side of the handshake: her own
/// identity and ephemeral ("base") key pairs, Bob's public key material, an
/// optional one-time pre-key, and an optional post-quantum KEM public key
/// (held opaquely; encapsulation against it is the caller's concern).
pub struct HandshakeParameters {
    /// Alice's identity key pair.
    pub our_identity_key_pair: KeyPairBytes,
    /// Alice's ephemeral (base) key pair.
    pub our_base_key_pair: KeyPairBytes,
    /// Bob's identity public key.
    pub their_identity_key: [u8; 32],
    /// Bob's signed pre-key public key.
    pub their_signed_pre_key: [u8; 32],
    /// Bob's ratchet public key (carried, but unused by the core computation).
    pub their_ratchet_key: [u8; 32],
    /// Bob's one-time pre-key public key, if he published one.
    pub their_one_time_pre_key: Option<[u8; 32]>,
    /// Bob's post-quantum KEM public key, if he published one.
    pub their_kyber_pre_key: Option<Vec<u8>>,
}

/// The handshake transcript: the ordered concatenation of the raw public-key
/// encodings — Alice identity, Bob identity, Alice ephemeral, Bob signed
/// pre-key, and the one-time pre-key when present.
pub open spec fn spec_transcript(p: HandshakeParameters) -> Seq<u8> {
    let base = p.our_identity_key_pair.public_key@
        + p.their_identity_key@
        + p.our_base_key_pair.public_key@
        + p.their_signed_pre_key@;
    match p.their_one_time_pre_key {
        Some(opk) => base + opk@,
        None => base,
    }
}

/// Builds the transcript byte string of `p`.
pub fn build_transcript(p: &HandshakeParameters) -> (r: Vec<u8>)
    ensures
        r@ == spec_transcript(*p),
{
    let mut t: Vec<u8> = Vec::new();
    crate::bytes::append_bytes(&mut t, p.our_identity_key_pair.public_key.as_slice());
    crate::bytes::append_bytes(&mut t, p.their_identity_key.as_slice());
    crate::bytes::append_bytes(&mut t, p.our_base_key_pair.public_key.as_slice());
    crate::bytes::append_bytes(&mut t, p.their_signed_pre_key.as_slice());
    match &p.their_one_time_pre_key {
        Some(opk) => {
            crate::bytes::append_bytes(&mut t, opk.as_slice());
        },
        None => {},
    }
    t
}

} // verus!
