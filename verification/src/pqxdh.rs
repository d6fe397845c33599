//! The baseline sequential agreement: the plain X3DH-style key exchange that
//! performs each Diffie-Hellman agreement independently, in fixed order, as a
//! timing and correctness reference for the simultaneous combiner. It applies
//! no randomizer weighting, so its derived key differs from the combiner's.

use vstd::prelude::*;
use crate::bytes::append_bytes;
use crate::curve::{x25519_agreement, x25519_of};
use crate::key_derivation::{derive_keys, hkdf_sha256_64_of, spec_label};
use crate::params::HandshakeParameters;
use crate::pqmudh::{discontinuity_marker, spec_kem_view};

verus! {

/// The concatenated raw agreements, in fixed order: (Alice identity, Bob
/// signed pre-key), (Alice ephemeral, Bob identity), (Alice ephemeral, Bob
/// signed pre-key), and — when present — (Alice ephemeral, Bob one-time
/// pre-key).
pub open spec fn spec_agreements(p: HandshakeParameters) -> Seq<u8> {
    let base = x25519_of(p.our_identity_key_pair.private_key@, p.their_signed_pre_key@)
        + x25519_of(p.our_base_key_pair.private_key@, p.their_identity_key@)
        + x25519_of(p.our_base_key_pair.private_key@, p.their_signed_pre_key@);
    match p.their_one_time_pre_key {
        Some(opk) => base + x25519_of(p.our_base_key_pair.private_key@, opk@),
        None => base,
    }
}

/// The baseline's derived key: HKDF over the discontinuity marker, the
/// independent agreements and the optional KEM secret, under the label
/// selected by KEM presence.
pub open spec fn spec_pqxdh_key(p: HandshakeParameters, kem: Option<Seq<u8>>) -> Seq<u8> {
    match kem {
        Some(ss) => hkdf_sha256_64_of(
            discontinuity_marker() + spec_agreements(p) + ss,
            spec_label(true),
        ),
        None => hkdf_sha256_64_of(discontinuity_marker() + spec_agreements(p), spec_label(false)),
    }
}

/// Computes the plain sequential key exchange for Alice. The caller supplies
/// the KEM shared secret exactly when a KEM public key is present in the
/// parameters, as for the combiner.
pub fn pqxdh_alice_plain(
    parameters: &HandshakeParameters,
    kem_shared_secret: &Option<Vec<u8>>,
) -> (r: [u8; 64])
    requires
        kem_shared_secret is Some <==> parameters.their_kyber_pre_key is Some,
    ensures
        r@ == spec_pqxdh_key(*parameters, spec_kem_view(*kem_shared_secret)),
        r@.len() == 64,
{
    let mut secrets: Vec<u8> = Vec::new();
    let marker: [u8; 32] = [
        0xff, 0xff, 0xff, 0xff, 0xff, 0xff, 0xff, 0xff, 0xff, 0xff, 0xff, 0xff, 0xff, 0xff,
        0xff, 0xff, 0xff, 0xff, 0xff, 0xff, 0xff, 0xff, 0xff, 0xff, 0xff, 0xff, 0xff, 0xff,
        0xff, 0xff, 0xff, 0xff,
    ];
    proof {
        assert(marker@ =~= discontinuity_marker());
    }
    append_bytes(&mut secrets, marker.as_slice());

    let a1 = x25519_agreement(
        &parameters.our_identity_key_pair.private_key,
        &parameters.their_signed_pre_key,
    );
    append_bytes(&mut secrets, a1.as_slice());
    let a2 = x25519_agreement(
        &parameters.our_base_key_pair.private_key,
        &parameters.their_identity_key,
    );
    append_bytes(&mut secrets, a2.as_slice());
    let a3 = x25519_agreement(
        &parameters.our_base_key_pair.private_key,
        &parameters.their_signed_pre_key,
    );
    append_bytes(&mut secrets, a3.as_slice());
    match &parameters.their_one_time_pre_key {
        Some(opk) => {
            let a4 = x25519_agreement(&parameters.our_base_key_pair.private_key, opk);
            append_bytes(&mut secrets, a4.as_slice());
        },
        None => {},
    }
    proof {
        assert(secrets@ =~= discontinuity_marker() + spec_agreements(*parameters));
    }

    let has_kyber: bool = match kem_shared_secret {
        Some(ss) => {
            append_bytes(&mut secrets, ss.as_slice());
            proof {
                assert(secrets@ =~= discontinuity_marker() + spec_agreements(*parameters) + ss@);
            }
            true
        },
        None => false,
    };

    derive_keys(has_kyber, secrets.as_slice())
}

} // verus!
