//! Elliptic-curve primitives, consumed through `curve25519_dalek` behind
//! trusted wrappers that speak about canonical 32-byte point encodings.
//!
//! Montgomery-form public keys are lifted to Edwards form with the fixed
//! positive sign convention; Edwards points are carried as their canonical
//! compressed encodings, with addition a pure function of two encodings.

use vstd::prelude::*;
use curve25519_dalek::MontgomeryPoint;
use curve25519_dalek::edwards::CompressedEdwardsY;
use curve25519_dalek::traits::Identity;

verus! {

/// The compressed encoding of the Edwards lift (positive sign) of the
/// Montgomery u-coordinate `m`, or `None` when `m` lies on the twist.
pub uninterp spec fn edwards_of(m: Seq<u8>) -> Option<Seq<u8>>;

/// Holds of the canonical compressed encodings of Edwards points: exactly the
/// 32-byte strings whose decompression succeeds and re-compresses to itself.
pub uninterp spec fn is_edwards_encoding(s: Seq<u8>) -> bool;

/// The compressed encoding of the sum of the Edwards points encoded by `a`
/// and `b`.
pub uninterp spec fn edwards_sum(a: Seq<u8>, b: Seq<u8>) -> Seq<u8>;

/// The X25519 agreement: the clamped scalar `k` times the Montgomery point
/// `u`, as 32 bytes.
pub uninterp spec fn x25519_of(k: Seq<u8>, u: Seq<u8>) -> Seq<u8>;

/// The compressed encoding of the curve's identity element: y = 1,
/// little-endian, with the sign bit clear.
pub open spec fn edwards_identity_seq() -> Seq<u8> {
    Seq::new(32, |i: int| if i == 0 { 1u8 } else { 0u8 })
}

/// Relies on `MontgomeryPoint::to_edwards` with sign 0 (the positive
/// representative, a fixed protocol-level choice) and `EdwardsPoint::compress`:
/// the result is a pure function of the input bytes, `Some` exactly when the
/// u-coordinate lies on Curve25519 rather than on its twist.
#[verifier::external_body]
pub(crate) fn montgomery_to_edwards(m: &[u8; 32]) -> (r: Option<[u8; 32]>)
    ensures
        match r {
            Some(e) => edwards_of(m@) == Some(e@) && is_edwards_encoding(e@),
            None => edwards_of(m@) is None,
        },
{
    MontgomeryPoint(*m).to_edwards(0).map(|p| p.compress().to_bytes())
}

/// Relies on `EdwardsPoint::identity` and `compress`: the neutral element has
/// y = 1 and compresses to `0x01` followed by 31 zero bytes.
#[verifier::external_body]
pub(crate) fn edwards_identity() -> (r: [u8; 32])
    ensures
        r@ == edwards_identity_seq(),
        is_edwards_encoding(r@),
{
    curve25519_dalek::EdwardsPoint::identity().compress().to_bytes()
}

/// Relies on `CompressedEdwardsY::decompress`, `EdwardsPoint` addition and
/// `compress`: the sum of two canonically encoded points is a pure function of
/// the two encodings, and is itself canonically encoded.
#[verifier::external_body]
pub(crate) fn edwards_add(a: &[u8; 32], b: &[u8; 32]) -> (r: [u8; 32])
    requires
        is_edwards_encoding(a@),
        is_edwards_encoding(b@),
    ensures
        r@ == edwards_sum(a@, b@),
        is_edwards_encoding(r@),
{
    let pa = CompressedEdwardsY(*a).decompress().expect("a canonical encoding decompresses");
    let pb = CompressedEdwardsY(*b).decompress().expect("a canonical encoding decompresses");
    (pa + pb).compress().to_bytes()
}

/// Relies on `MontgomeryPoint::mul_clamped`: the X25519 Diffie-Hellman
/// agreement is a pure function of the private scalar bytes and the peer's
/// public point bytes.
#[verifier::external_body]
pub(crate) fn x25519_agreement(scalar: &[u8; 32], point: &[u8; 32]) -> (r: [u8; 32])
    ensures
        r@ == x25519_of(scalar@, point@),
{
    MontgomeryPoint(*point).mul_clamped(*scalar).to_bytes()
}

} // verus!
