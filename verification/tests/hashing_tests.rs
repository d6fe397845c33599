use pqmudh::hashing::derive_randomizer;
use sha2::{Digest, Sha256};

#[test]
fn randomizer_is_sha256_of_transcript_and_index() {
    // SHA-256("abc"), with "ab" as the transcript and b'c' as the index byte.
    let transcript = vec![0x61u8, 0x62];
    let r = derive_randomizer(&transcript, 0x63);
    let expected: [u8; 32] = [
        0xba, 0x78, 0x16, 0xbf, 0x8f, 0x01, 0xcf, 0xea, 0x41, 0x41, 0x40, 0xde, 0x5d, 0xae,
        0x22, 0x23, 0xb0, 0x03, 0x61, 0xa3, 0x96, 0x17, 0x7a, 0x9c, 0xb4, 0x10, 0xff, 0x61,
        0xf2, 0x00, 0x15, 0xad,
    ];
    assert_eq!(r, expected);
}

#[test]
fn randomizer_matches_direct_digest() {
    let transcript: Vec<u8> = (0u8..=127).collect();
    for index in [1u8, 2, 3, 4] {
        let r = derive_randomizer(&transcript, index);
        let mut hasher = Sha256::new();
        hasher.update(&transcript);
        hasher.update([index]);
        let expected: [u8; 32] = hasher.finalize().into();
        assert_eq!(r, expected);
    }
}

#[test]
fn randomizers_differ_between_indices() {
    let transcript = vec![0u8; 128];
    assert_ne!(derive_randomizer(&transcript, 1), derive_randomizer(&transcript, 2));
}
