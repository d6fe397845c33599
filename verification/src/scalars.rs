//! Scalar combination: randomizers and private keys are multiplied and added as
//! little-endian big integers, reduced modulo the curve's group order, and
//! serialized to the fixed 32-byte exponent form consumed by the combiner.

use vstd::prelude::*;
use crate::bytes::{le_bytes, le_digits, pad_to_32};

verus! {

/// The order of the main subgroup of Curve25519, as its 32-byte little-endian
/// encoding.
pub open spec fn group_order_seq() -> Seq<u8> {
    seq![
        0xedu8, 0xd3u8, 0xf5u8, 0x5cu8, 0x1au8, 0x63u8, 0x12u8, 0x58u8,
        0xd6u8, 0x9cu8, 0xf7u8, 0xa2u8, 0xdeu8, 0xf9u8, 0xdeu8, 0x14u8,
        0x00u8, 0x00u8, 0x00u8, 0x00u8, 0x00u8, 0x00u8, 0x00u8, 0x00u8,
        0x00u8, 0x00u8, 0x00u8, 0x00u8, 0x00u8, 0x00u8, 0x00u8, 0x10u8,
    ]
}

/// The group order as an integer.
pub open spec fn group_order() -> nat {
    le_bytes(group_order_seq())
}

/// A randomizer times a private key, reduced by the group order.
pub open spec fn spec_single_exponent(alpha: Seq<u8>, key: Seq<u8>) -> nat {
    (le_bytes(alpha) * le_bytes(key)) % group_order()
}

/// Two randomizer-weighted private keys summed, then reduced by the group
/// order: the merged exponent for two terms that multiply the same point.
pub open spec fn spec_merged_exponent(
    alpha_a: Seq<u8>,
    key_a: Seq<u8>,
    alpha_b: Seq<u8>,
    key_b: Seq<u8>,
) -> nat {
    (le_bytes(alpha_a) * le_bytes(key_a) + le_bytes(alpha_b) * le_bytes(key_b)) % group_order()
}

/// Relies on `num_bigint::BigUint` multiplication over little-endian byte
/// encodings; `to_bytes_le` yields the minimal encoding (one zero byte for
/// zero), so the product of two nonempty buffers fits in their joint width.
#[verifier::external_body]
fn big_mul(a: &[u8], b: &[u8]) -> (r: Vec<u8>)
    requires
        a@.len() >= 1,
        b@.len() >= 1,
    ensures
        le_bytes(r@) == le_bytes(a@) * le_bytes(b@),
        r@.len() <= a@.len() + b@.len(),
{
    let na = num_bigint::BigUint::from_bytes_le(a);
    let nb = num_bigint::BigUint::from_bytes_le(b);
    (na * nb).to_bytes_le()
}

/// Relies on `num_bigint::BigUint` addition over little-endian byte encodings.
#[verifier::external_body]
fn big_add(a: &[u8], b: &[u8]) -> (r: Vec<u8>)
    ensures
        le_bytes(r@) == le_bytes(a@) + le_bytes(b@),
        r@.len() <= 1 + if a@.len() >= b@.len() { a@.len() } else { b@.len() },
{
    let na = num_bigint::BigUint::from_bytes_le(a);
    let nb = num_bigint::BigUint::from_bytes_le(b);
    (na + nb).to_bytes_le()
}

/// Relies on `num_bigint::BigUint` remainder over little-endian byte encodings;
/// the remainder is smaller than the modulus, so its minimal encoding is no
/// wider than the modulus buffer.
#[verifier::external_body]
fn big_rem(a: &[u8], m: &[u8]) -> (r: Vec<u8>)
    requires
        le_bytes(m@) >= 1,
    ensures
        le_bytes(r@) == le_bytes(a@) % le_bytes(m@),
        r@.len() <= m@.len(),
{
    let na = num_bigint::BigUint::from_bytes_le(a);
    let nm = num_bigint::BigUint::from_bytes_le(m);
    (na % nm).to_bytes_le()
}

/// The group order as a byte buffer.
pub fn group_order_bytes() -> (r: Vec<u8>)
    ensures
        r@ == group_order_seq(),
        r@.len() == 32,
{
    let mut v: Vec<u8> = Vec::new();
    let head: [u8; 16] = [
        0xed, 0xd3, 0xf5, 0x5c, 0x1a, 0x63, 0x12, 0x58,
        0xd6, 0x9c, 0xf7, 0xa2, 0xde, 0xf9, 0xde, 0x14,
    ];
    let tail: [u8; 16] = [0, 0, 0, 0, 0, 0, 0, 0, 0, 0, 0, 0, 0, 0, 0, 0x10];
    crate::bytes::append_bytes(&mut v, head.as_slice());
    crate::bytes::append_bytes(&mut v, tail.as_slice());
    proof {
        assert(v@ =~= group_order_seq());
    }
    v
}

proof fn lemma_group_order_positive()
    ensures
        group_order() >= 1,
{
    assert(le_bytes(group_order_seq())
        == group_order_seq()[0] as nat
            + 256 * le_bytes(group_order_seq().subrange(1, 32)));
}

/// Serializes `v % group order` (already reduced) to the 32-byte form.
fn reduce_and_serialize(raw: &[u8]) -> (r: Vec<u8>)
    ensures
        r@.len() == 32,
        le_bytes(r@) == le_bytes(raw@) % group_order(),
        r@ == le_digits(le_bytes(raw@) % group_order(), 32),
        le_bytes(r@) < group_order(),
{
    let order = group_order_bytes();
    proof {
        lemma_group_order_positive();
    }
    let mut r = big_rem(raw, order.as_slice());
    proof {
        vstd::arithmetic::div_mod::lemma_mod_bound(
            le_bytes(raw@) as int,
            group_order() as int,
        );
    }
    pad_to_32(&mut r);
    r
}

/// The exponent that multiplies a point appearing in a single term:
/// `(alpha * key) mod n`, serialized little-endian in exactly 32 bytes.
pub fn single_exponent(alpha: &[u8; 32], key: &[u8; 32]) -> (r: Vec<u8>)
    ensures
        r@.len() == 32,
        le_bytes(r@) == spec_single_exponent(alpha@, key@),
        r@ == le_digits(spec_single_exponent(alpha@, key@), 32),
        le_bytes(r@) < group_order(),
{
    let prod = big_mul(alpha.as_slice(), key.as_slice());
    reduce_and_serialize(prod.as_slice())
}

/// The exponent merging two terms that multiply the same point:
/// `(alpha_a * key_a + alpha_b * key_b) mod n`, reduced only after the
/// multiplications and the addition, serialized in exactly 32 bytes.
pub fn merged_exponent(
    alpha_a: &[u8; 32],
    key_a: &[u8; 32],
    alpha_b: &[u8; 32],
    key_b: &[u8; 32],
) -> (r: Vec<u8>)
    ensures
        r@.len() == 32,
        le_bytes(r@) == spec_merged_exponent(alpha_a@, key_a@, alpha_b@, key_b@),
        r@ == le_digits(spec_merged_exponent(alpha_a@, key_a@, alpha_b@, key_b@), 32),
        le_bytes(r@) < group_order(),
{
    let prod_a = big_mul(alpha_a.as_slice(), key_a.as_slice());
    let prod_b = big_mul(alpha_b.as_slice(), key_b.as_slice());
    let sum = big_add(prod_a.as_slice(), prod_b.as_slice());
    reduce_and_serialize(sum.as_slice())
}

} // verus!
