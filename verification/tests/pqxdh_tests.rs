use curve25519_dalek::MontgomeryPoint;
use hkdf::Hkdf;
use pqmudh::params::{HandshakeParameters, KeyPairBytes};
use pqmudh::pqxdh::pqxdh_alice_plain;
use sha2::Sha256;

fn varied(seed: u8) -> [u8; 32] {
    let mut a = [0u8; 32];
    for (i, b) in a.iter_mut().enumerate() {
        *b = seed.wrapping_mul(41).wrapping_add(i as u8).wrapping_mul(seed | 1);
    }
    a
}

fn keypair(seed: u8) -> KeyPairBytes {
    let private_key = varied(seed);
    let public_key = MontgomeryPoint::mul_base_clamped(private_key).to_bytes();
    KeyPairBytes { private_key, public_key }
}

fn parameters(with_opk: bool, with_kem: bool) -> HandshakeParameters {
    HandshakeParameters {
        our_identity_key_pair: keypair(13),
        our_base_key_pair: keypair(29),
        their_identity_key: keypair(43).public_key,
        their_signed_pre_key: keypair(61).public_key,
        their_ratchet_key: keypair(73).public_key,
        their_one_time_pre_key: if with_opk { Some(keypair(89).public_key) } else { None },
        their_kyber_pre_key: if with_kem { Some(vec![4u8; 1568]) } else { None },
    }
}

fn x25519(private: &[u8; 32], public: &[u8; 32]) -> [u8; 32] {
    MontgomeryPoint(*public).mul_clamped(*private).to_bytes()
}

fn hkdf64(ikm: &[u8], info: &[u8]) -> [u8; 64] {
    let mut okm = [0u8; 64];
    Hkdf::<Sha256>::new(None, ikm)
        .expand(info, &mut okm)
        .expect("valid length");
    okm
}

fn reference_key(p: &HandshakeParameters, kem: &Option<Vec<u8>>) -> [u8; 64] {
    let mut secrets: Vec<u8> = Vec::new();
    secrets.extend_from_slice(&[0xffu8; 32]);
    secrets.extend_from_slice(&x25519(
        &p.our_identity_key_pair.private_key,
        &p.their_signed_pre_key,
    ));
    secrets.extend_from_slice(&x25519(&p.our_base_key_pair.private_key, &p.their_identity_key));
    secrets.extend_from_slice(&x25519(
        &p.our_base_key_pair.private_key,
        &p.their_signed_pre_key,
    ));
    if let Some(opk) = &p.their_one_time_pre_key {
        secrets.extend_from_slice(&x25519(&p.our_base_key_pair.private_key, opk));
    }
    let label: &[u8] = if let Some(ss) = kem {
        secrets.extend_from_slice(ss);
        b"WhisperText_X25519_SHA-256_CRYSTALS-KYBER-1024"
    } else {
        b"WhisperText"
    };
    hkdf64(&secrets, label)
}

#[test]
fn baseline_matches_reference_without_opk() {
    let p = parameters(false, false);
    assert_eq!(pqxdh_alice_plain(&p, &None), reference_key(&p, &None));
}

#[test]
fn baseline_matches_reference_with_opk() {
    let p = parameters(true, false);
    assert_eq!(pqxdh_alice_plain(&p, &None), reference_key(&p, &None));
}

#[test]
fn baseline_matches_reference_with_kem() {
    let p = parameters(true, true);
    let ss = Some(vec![0x33u8; 32]);
    assert_eq!(pqxdh_alice_plain(&p, &ss), reference_key(&p, &ss));
}

#[test]
fn baseline_key_is_64_bytes() {
    let p = parameters(false, false);
    assert_eq!(pqxdh_alice_plain(&p, &None).len(), 64);
}
