use num_bigint::BigUint;
use pqmudh::scalars::{group_order_bytes, merged_exponent, single_exponent};

fn varied(seed: u8) -> [u8; 32] {
    let mut a = [0u8; 32];
    for (i, b) in a.iter_mut().enumerate() {
        *b = seed.wrapping_mul(31).wrapping_add(i as u8).wrapping_mul(seed | 1);
    }
    a
}

fn le32(n: &BigUint) -> Vec<u8> {
    let mut v = n.to_bytes_le();
    v.resize(32, 0);
    v
}

#[test]
fn group_order_bytes_is_the_curve_order() {
    let order = BigUint::from_bytes_le(&group_order_bytes());
    // l = 2^252 + 27742317777372353535851937790883648493
    let expected = (BigUint::from(1u8) << 252u32)
        + BigUint::parse_bytes(b"27742317777372353535851937790883648493", 10).unwrap();
    assert_eq!(order, expected);
}

#[test]
fn single_exponent_matches_bigint() {
    let alpha = varied(3);
    let key = varied(200);
    let order = BigUint::from_bytes_le(&group_order_bytes());
    let expected = (BigUint::from_bytes_le(&alpha) * BigUint::from_bytes_le(&key)) % &order;
    assert_eq!(single_exponent(&alpha, &key), le32(&expected));
}

#[test]
fn merged_exponent_matches_bigint() {
    let alpha_a = varied(17);
    let key_a = varied(90);
    let alpha_b = varied(55);
    let key_b = varied(140);
    let order = BigUint::from_bytes_le(&group_order_bytes());
    let expected = (BigUint::from_bytes_le(&alpha_a) * BigUint::from_bytes_le(&key_a)
        + BigUint::from_bytes_le(&alpha_b) * BigUint::from_bytes_le(&key_b))
        % &order;
    assert_eq!(merged_exponent(&alpha_a, &key_a, &alpha_b, &key_b), le32(&expected));
}

#[test]
fn exponents_are_32_bytes_below_group_order() {
    let order = BigUint::from_bytes_le(&group_order_bytes());
    let max = [0xffu8; 32];
    let single = single_exponent(&max, &max);
    let merged = merged_exponent(&max, &max, &max, &max);
    assert_eq!(single.len(), 32);
    assert_eq!(merged.len(), 32);
    assert!(BigUint::from_bytes_le(&single) < order);
    assert!(BigUint::from_bytes_le(&merged) < order);
}
