//! Key derivation: the assembled secret material is expanded to exactly 64
//! bytes with HKDF-SHA-256 (extract with the default all-zero salt, then
//! expand), under one of two fixed protocol-identifying info labels.

use vstd::prelude::*;

verus! {

/// The 64-byte HKDF-SHA-256 output (no salt) for the given input key material
/// and info label.
pub uninterp spec fn hkdf_sha256_64_of(ikm: Seq<u8>, info: Seq<u8>) -> Seq<u8>;

/// The info label of the classical-only configuration: the ASCII bytes of
/// "WhisperText".
pub open spec fn classical_label() -> Seq<u8> {
    seq![87u8, 104u8, 105u8, 115u8, 112u8, 101u8, 114u8, 84u8, 101u8, 120u8, 116u8]
}

/// The info label of the hybrid post-quantum configuration: the ASCII bytes of
/// "WhisperText_X25519_SHA-256_CRYSTALS-KYBER-1024".
pub open spec fn hybrid_label() -> Seq<u8> {
    seq![
        87u8, 104u8, 105u8, 115u8, 112u8, 101u8, 114u8, 84u8, 101u8, 120u8, 116u8, 95u8,
        88u8, 50u8, 53u8, 53u8, 49u8, 57u8, 95u8, 83u8, 72u8, 65u8, 45u8, 50u8, 53u8,
        54u8, 95u8, 67u8, 82u8, 89u8, 83u8, 84u8, 65u8, 76u8, 83u8, 45u8, 75u8, 89u8,
        66u8, 69u8, 82u8, 45u8, 49u8, 48u8, 50u8, 52u8,
    ]
}

/// The info label selected by the hybrid flag: the hybrid label if and only if
/// a KEM shared secret was folded in.
pub open spec fn spec_label(has_kyber: bool) -> Seq<u8> {
    if has_kyber {
        hybrid_label()
    } else {
        classical_label()
    }
}

/// The label bytes of the classical-only configuration.
pub fn classical_label_bytes() -> (r: Vec<u8>)
    ensures
        r@ == classical_label(),
{
    let a: [u8; 11] = [87, 104, 105, 115, 112, 101, 114, 84, 101, 120, 116];
    let mut v: Vec<u8> = Vec::new();
    crate::bytes::append_bytes(&mut v, a.as_slice());
    proof {
        assert(v@ =~= classical_label());
    }
    v
}

/// The label bytes of the hybrid post-quantum configuration.
pub fn hybrid_label_bytes() -> (r: Vec<u8>)
    ensures
        r@ == hybrid_label(),
{
    let a: [u8; 46] = [
        87, 104, 105, 115, 112, 101, 114, 84, 101, 120, 116, 95, 88, 50, 53, 53, 49, 57,
        95, 83, 72, 65, 45, 50, 53, 54, 95, 67, 82, 89, 83, 84, 65, 76, 83, 45, 75, 89,
        66, 69, 82, 45, 49, 48, 50, 52,
    ];
    let mut v: Vec<u8> = Vec::new();
    crate::bytes::append_bytes(&mut v, a.as_slice());
    proof {
        assert(v@ =~= hybrid_label());
    }
    v
}

/// Relies on `hkdf::Hkdf::<sha2::Sha256>`: extract with the default salt then
/// expand; the output is a pure function of the input key material and the
/// info label, and 64 bytes is always a valid HKDF-SHA-256 output length.
#[verifier::external_body]
fn hkdf_sha256_expand64(ikm: &[u8], info: &[u8]) -> (r: [u8; 64])
    ensures
        r@ == hkdf_sha256_64_of(ikm@, info@),
{
    let mut okm = [0u8; 64];
    hkdf::Hkdf::<sha2::Sha256>::new(None, ikm)
        .expand(info, &mut okm)
        .expect("64 bytes is a valid HKDF-SHA-256 output length");
    okm
}

/// Expands the secret material to exactly 64 bytes under the given info label.
pub fn derive_keys_with_label(label: &[u8], secret_input: &[u8]) -> (r: [u8; 64])
    ensures
        r@ == hkdf_sha256_64_of(secret_input@, label@),
        r@.len() == 64,
{
    hkdf_sha256_expand64(secret_input, label)
}

/// Expands the secret material to exactly 64 bytes, under the hybrid
/// post-quantum info label when `has_kyber` holds and under the classical-only
/// label otherwise.
pub fn derive_keys(has_kyber: bool, secret_input: &[u8]) -> (r: [u8; 64])
    ensures
        r@ == hkdf_sha256_64_of(secret_input@, spec_label(has_kyber)),
        r@.len() == 64,
{
    let label = if has_kyber {
        hybrid_label_bytes()
    } else {
        classical_label_bytes()
    };
    derive_keys_with_label(label.as_slice(), secret_input)
}

} // verus!
