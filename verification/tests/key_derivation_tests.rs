use hkdf::Hkdf;
use pqmudh::key_derivation::{derive_keys, derive_keys_with_label};
use sha2::Sha256;

fn hkdf64(ikm: &[u8], info: &[u8]) -> [u8; 64] {
    let mut okm = [0u8; 64];
    Hkdf::<Sha256>::new(None, ikm)
        .expand(info, &mut okm)
        .expect("valid length");
    okm
}

#[test]
fn derived_key_is_64_bytes() {
    let classical = derive_keys(false, &[1u8, 2, 3]);
    let hybrid = derive_keys(true, &[1u8, 2, 3]);
    assert_eq!(classical.len(), 64);
    assert_eq!(hybrid.len(), 64);
}

#[test]
fn derive_keys_classical_matches_hkdf() {
    let ikm = [5u8; 40];
    let expected = hkdf64(&ikm, b"WhisperText");
    assert_eq!(derive_keys(false, &ikm), expected);
}

#[test]
fn derive_keys_hybrid_matches_hkdf() {
    let ikm = [5u8; 40];
    let expected = hkdf64(&ikm, b"WhisperText_X25519_SHA-256_CRYSTALS-KYBER-1024");
    assert_eq!(derive_keys(true, &ikm), expected);
}

#[test]
fn label_flip_changes_key() {
    let ikm = [7u8; 96];
    assert_ne!(derive_keys(true, &ikm), derive_keys(false, &ikm));
}

#[test]
fn derive_keys_with_label_matches_hkdf() {
    let ikm = [9u8; 16];
    let label = [0x41u8, 0x42, 0x43];
    assert_eq!(derive_keys_with_label(&label, &ikm), hkdf64(&ikm, &label));
}
