//! The accelerated multi-key agreement ("pqMuDH"): a simultaneous
//! multi-scalar-multiplication combiner that folds the handshake's
//! Diffie-Hellman agreements into one double-and-add pass, plus the
//! shared-secret assembly and key derivation.

use vstd::prelude::*;
use crate::bytes::{append_bytes, le_digits};
use crate::curve::{
    edwards_add, edwards_identity, edwards_identity_seq, edwards_of, edwards_sum,
    is_edwards_encoding, montgomery_to_edwards,
};
use crate::hashing::{derive_randomizer, sha256_of};
use crate::key_derivation::{derive_keys, hkdf_sha256_64_of, spec_label};
use crate::params::{build_transcript, spec_transcript, HandshakeParameters};
use crate::scalars::{merged_exponent, single_exponent, spec_merged_exponent, spec_single_exponent};

verus! {

/// The ways the handshake computation can fail.
#[derive(Debug, Clone, Copy, PartialEq, Eq, Structural)]
pub enum HandshakeError {
    /// A Montgomery public key has no Edwards lift under the fixed positive
    /// sign convention (its u-coordinate lies on the twist).
    PointConversion,
}

/// Whether bit `bidx` (little-endian bit order over the whole buffer) of the
/// serialized exponent `e` is set.
pub open spec fn spec_bit(e: Seq<u8>, bidx: int) -> bool {
    e[bidx / 8] & (1u8 << ((bidx % 8) as u8)) != 0
}

/// One bit position of the simultaneous double-and-add pass: conditionally add
/// each shared point whose exponent bit is set, then double the accumulator.
pub open spec fn spec_combine_step(
    acc: Seq<u8>,
    spk: Seq<u8>,
    ikb: Seq<u8>,
    opk: Option<Seq<u8>>,
    e1: Seq<u8>,
    e2: Seq<u8>,
    e4: Seq<u8>,
    bidx: int,
) -> Seq<u8> {
    let acc1 = if spec_bit(e1, bidx) {
        edwards_sum(acc, spk)
    } else {
        acc
    };
    let acc2 = if spec_bit(e2, bidx) {
        edwards_sum(acc1, ikb)
    } else {
        acc1
    };
    let acc3 = match opk {
        Some(q) => if spec_bit(e4, bidx) {
            edwards_sum(acc2, q)
        } else {
            acc2
        },
        None => acc2,
    };
    edwards_sum(acc3, acc3)
}

/// The accumulator after the `k` most significant of the 256 bit positions
/// have been processed, starting from the identity element.
pub open spec fn spec_combine(
    spk: Seq<u8>,
    ikb: Seq<u8>,
    opk: Option<Seq<u8>>,
    e1: Seq<u8>,
    e2: Seq<u8>,
    e4: Seq<u8>,
    k: nat,
) -> Seq<u8>
    decreases k,
{
    if k == 0 {
        edwards_identity_seq()
    } else {
        spec_combine_step(
            spec_combine(spk, ikb, opk, e1, e2, e4, (k - 1) as nat),
            spk,
            ikb,
            opk,
            e1,
            e2,
            e4,
            256 - k,
        )
    }
}

/// The view of an optional point encoding.
pub open spec fn spec_opt_point(o: Option<[u8; 32]>) -> Option<Seq<u8>> {
    match o {
        Some(a) => Some(a@),
        None => None,
    }
}

/// The interleaved left-to-right double-and-add simultaneous multi-scalar
/// multiplication: walks the 256 bit positions from the most significant down
/// to bit 0, adding the signed-pre-key point, the identity-key point and (when
/// present) the one-time-pre-key point into one accumulator wherever the
/// corresponding exponent bit is set, and doubling the accumulator once per
/// position.
pub fn combine_shared_point(
    spk_point: &[u8; 32],
    ik_point: &[u8; 32],
    opk_point: &Option<[u8; 32]>,
    exp1: &Vec<u8>,
    exp2: &Vec<u8>,
    exp4: &Vec<u8>,
) -> (r: [u8; 32])
    requires
        is_edwards_encoding(spk_point@),
        is_edwards_encoding(ik_point@),
        opk_point matches Some(q) ==> is_edwards_encoding(q@),
        exp1@.len() == 32,
        exp2@.len() == 32,
        opk_point is Some ==> exp4@.len() == 32,
    ensures
        r@ == spec_combine(spk_point@, ik_point@, spec_opt_point(*opk_point), exp1@, exp2@, exp4@, 256),
        is_edwards_encoding(r@),
{
    let mut acc: [u8; 32] = edwards_identity();
    let mut k: usize = 0;
    while k < 256
        invariant
            k <= 256,
            is_edwards_encoding(spk_point@),
            is_edwards_encoding(ik_point@),
            opk_point matches Some(q) ==> is_edwards_encoding(q@),
            exp1@.len() == 32,
            exp2@.len() == 32,
            opk_point is Some ==> exp4@.len() == 32,
            is_edwards_encoding(acc@),
            acc@ == spec_combine(spk_point@, ik_point@, spec_opt_point(*opk_point), exp1@, exp2@, exp4@, k as nat),
        decreases 256 - k,
    {
        let ghost acc_in = acc@;
        let b: usize = 255 - k;
        let byte_i: usize = b / 8;
        let j: u8 = (b % 8) as u8;
        assert(byte_i < 32 && j < 8);
        let mask: u8 = 1u8 << j;
        if (exp1[byte_i] & mask) != 0 {
            acc = edwards_add(&acc, spk_point);
        }
        assert(acc@ == if spec_bit(exp1@, b as int) { edwards_sum(acc_in, spk_point@) } else { acc_in });
        let ghost acc1 = acc@;
        if (exp2[byte_i] & mask) != 0 {
            acc = edwards_add(&acc, ik_point);
        }
        assert(acc@ == if spec_bit(exp2@, b as int) { edwards_sum(acc1, ik_point@) } else { acc1 });
        let ghost acc2 = acc@;
        match opk_point {
            Some(q) => {
                if (exp4[byte_i] & mask) != 0 {
                    acc = edwards_add(&acc, q);
                }
            },
            None => {},
        }
        acc = edwards_add(&acc, &acc);
        proof {
            assert(acc@ == spec_combine_step(acc_in, spk_point@, ik_point@, spec_opt_point(*opk_point), exp1@, exp2@, exp4@, b as int));
            assert(256 - (k + 1) == b as int);
        }
        k = k + 1;
    }
    acc
}

/// The randomizer for domain-separation index `index`: the SHA-256 digest of
/// the transcript extended with that single byte.
pub open spec fn spec_alpha(p: HandshakeParameters, index: u8) -> Seq<u8> {
    sha256_of(spec_transcript(p).push(index))
}

/// The merged first exponent: `(alpha1 * IK_A_private + alpha3 * EK_A_private) mod n`.
pub open spec fn spec_exp1_val(p: HandshakeParameters) -> nat {
    spec_merged_exponent(
        spec_alpha(p, 1),
        p.our_identity_key_pair.private_key@,
        spec_alpha(p, 3),
        p.our_base_key_pair.private_key@,
    )
}

/// The second exponent: `(alpha2 * EK_A_private) mod n`.
pub open spec fn spec_exp2_val(p: HandshakeParameters) -> nat {
    spec_single_exponent(spec_alpha(p, 2), p.our_base_key_pair.private_key@)
}

/// The fourth exponent, used only when a one-time pre-key is present:
/// `(alpha4 * EK_A_private) mod n`.
pub open spec fn spec_exp4_val(p: HandshakeParameters) -> nat {
    spec_single_exponent(spec_alpha(p, 4), p.our_base_key_pair.private_key@)
}

/// Whether every Montgomery public key the combiner multiplies has an Edwards
/// lift: exactly the inputs on which the computation succeeds.
pub open spec fn spec_dh_ok(p: HandshakeParameters) -> bool {
    &&& edwards_of(p.their_signed_pre_key@) is Some
    &&& edwards_of(p.their_identity_key@) is Some
    &&& match p.their_one_time_pre_key {
        Some(opk) => edwards_of(opk@) is Some,
        None => true,
    }
}

/// The Edwards form of the one-time pre-key, when present.
pub open spec fn spec_opk_edwards(p: HandshakeParameters) -> Option<Seq<u8>> {
    match p.their_one_time_pre_key {
        Some(opk) => Some(edwards_of(opk@)->0),
        None => None,
    }
}

/// The serialized fourth exponent buffer: present (32 bytes) exactly when a
/// one-time pre-key is, and empty otherwise — no placeholder bytes exist.
pub open spec fn spec_exp4_bytes(p: HandshakeParameters) -> Seq<u8> {
    match p.their_one_time_pre_key {
        Some(_) => le_digits(spec_exp4_val(p), 32),
        None => Seq::empty(),
    }
}

/// The combined shared point of the whole pass, assuming `spec_dh_ok(p)`.
pub open spec fn spec_combined_point(p: HandshakeParameters) -> Seq<u8> {
    spec_combine(
        edwards_of(p.their_signed_pre_key@)->0,
        edwards_of(p.their_identity_key@)->0,
        spec_opk_edwards(p),
        le_digits(spec_exp1_val(p), 32),
        le_digits(spec_exp2_val(p), 32),
        spec_exp4_bytes(p),
        256,
    )
}

/// The fixed 32-byte discontinuity marker: all `0xFF`.
pub open spec fn discontinuity_marker() -> Seq<u8> {
    Seq::new(32, |i: int| 0xffu8)
}

/// The secret material before any KEM augmentation: the discontinuity marker
/// followed by the combined shared point's compressed encoding.
pub open spec fn spec_secret_material(p: HandshakeParameters) -> Seq<u8> {
    discontinuity_marker() + spec_combined_point(p)
}

/// The view of the optional KEM shared secret.
pub open spec fn spec_kem_view(kem: Option<Vec<u8>>) -> Option<Seq<u8>> {
    match kem {
        Some(ss) => Some(ss@),
        None => None,
    }
}

/// The derived key of the whole computation, assuming `spec_dh_ok(p)`: HKDF
/// over the secret material (with the KEM secret appended when present),
/// under the label selected by KEM presence.
pub open spec fn spec_pqmudh_key(p: HandshakeParameters, kem: Option<Seq<u8>>) -> Seq<u8> {
    match kem {
        Some(ss) => hkdf_sha256_64_of(spec_secret_material(p) + ss, spec_label(true)),
        None => hkdf_sha256_64_of(spec_secret_material(p), spec_label(false)),
    }
}

/// Computes the accelerated multi-key agreement for Alice: derives the
/// transcript randomizers, combines them with the private scalars into reduced
/// exponents, folds the shared points in one simultaneous double-and-add pass,
/// and expands the assembled secret material into a 64-byte key.
///
/// The caller supplies the KEM shared secret obtained by encapsulating against
/// Bob's KEM public key, exactly when that key is present in the parameters;
/// a failed encapsulation aborts the computation before this call.
pub fn pqmudh_alice(
    parameters: &HandshakeParameters,
    kem_shared_secret: &Option<Vec<u8>>,
) -> (r: Result<[u8; 64], HandshakeError>)
    requires
        kem_shared_secret is Some <==> parameters.their_kyber_pre_key is Some,
    ensures
        r is Ok <==> spec_dh_ok(*parameters),
        r matches Ok(k) ==> k@ == spec_pqmudh_key(*parameters, spec_kem_view(*kem_shared_secret)),
        r matches Err(e) ==> e == HandshakeError::PointConversion,
{
    // Bob's public keys, converted to Edwards form with the positive sign.
    let spk_e: [u8; 32] = match montgomery_to_edwards(&parameters.their_signed_pre_key) {
        Some(e) => e,
        None => {
            return Err(HandshakeError::PointConversion);
        },
    };
    let ik_e: [u8; 32] = match montgomery_to_edwards(&parameters.their_identity_key) {
        Some(e) => e,
        None => {
            return Err(HandshakeError::PointConversion);
        },
    };
    let opk_e: Option<[u8; 32]> = match &parameters.their_one_time_pre_key {
        Some(opk) => match montgomery_to_edwards(opk) {
            Some(e) => Some(e),
            None => {
                return Err(HandshakeError::PointConversion);
            },
        },
        None => None,
    };

    // Transcript hashing and domain-separated randomizers.
    let transcript = build_transcript(parameters);
    let alpha1 = derive_randomizer(&transcript, 1);
    let alpha2 = derive_randomizer(&transcript, 2);
    let alpha3 = derive_randomizer(&transcript, 3);

    // Scalar combination, reduced by the group order after multiplication.
    let exp1 = merged_exponent(
        &alpha1,
        &parameters.our_identity_key_pair.private_key,
        &alpha3,
        &parameters.our_base_key_pair.private_key,
    );
    let exp2 = single_exponent(&alpha2, &parameters.our_base_key_pair.private_key);
    let exp4: Vec<u8> = match &parameters.their_one_time_pre_key {
        Some(_) => {
            let alpha4 = derive_randomizer(&transcript, 4);
            single_exponent(&alpha4, &parameters.our_base_key_pair.private_key)
        },
        None => Vec::new(),
    };

    let point = combine_shared_point(&spk_e, &ik_e, &opk_e, &exp1, &exp2, &exp4);

    // Secret material: discontinuity marker, combined point, optional KEM secret.
    let mut secrets: Vec<u8> = Vec::new();
    let marker: [u8; 32] = [
        0xff, 0xff, 0xff, 0xff, 0xff, 0xff, 0xff, 0xff, 0xff, 0xff, 0xff, 0xff, 0xff, 0xff,
        0xff, 0xff, 0xff, 0xff, 0xff, 0xff, 0xff, 0xff, 0xff, 0xff, 0xff, 0xff, 0xff, 0xff,
        0xff, 0xff, 0xff, 0xff,
    ];
    proof {
        assert(marker@ =~= discontinuity_marker());
    }
    append_bytes(&mut secrets, marker.as_slice());
    append_bytes(&mut secrets, point.as_slice());

    let has_kyber: bool = match kem_shared_secret {
        Some(ss) => {
            append_bytes(&mut secrets, ss.as_slice());
            true
        },
        None => false,
    };

    let shared_secret: [u8; 64] = derive_keys(has_kyber, secrets.as_slice());
    Ok(shared_secret)
}

/// Determinism: the combined point and the derived key are functions of the
/// handshake parameters and the KEM shared secret alone, so two computations
/// on identical inputs yield an identical point and an identical key.
pub proof fn lemma_pqmudh_deterministic(
    p1: HandshakeParameters,
    p2: HandshakeParameters,
    kem: Option<Seq<u8>>,
)
    requires
        p1 == p2,
    ensures
        spec_combined_point(p1) == spec_combined_point(p2),
        spec_pqmudh_key(p1, kem) == spec_pqmudh_key(p2, kem),
{
}

/// The independent two-term-only combiner: one bit position adds only the
/// signed-pre-key and identity-key points before doubling.
pub open spec fn spec_combine_two_step(
    acc: Seq<u8>,
    spk: Seq<u8>,
    ikb: Seq<u8>,
    e1: Seq<u8>,
    e2: Seq<u8>,
    bidx: int,
) -> Seq<u8> {
    let acc1 = if spec_bit(e1, bidx) {
        edwards_sum(acc, spk)
    } else {
        acc
    };
    let acc2 = if spec_bit(e2, bidx) {
        edwards_sum(acc1, ikb)
    } else {
        acc1
    };
    edwards_sum(acc2, acc2)
}

/// The two-term-only combiner after its `k` most significant bit positions.
pub open spec fn spec_combine_two(
    spk: Seq<u8>,
    ikb: Seq<u8>,
    e1: Seq<u8>,
    e2: Seq<u8>,
    k: nat,
) -> Seq<u8>
    decreases k,
{
    if k == 0 {
        edwards_identity_seq()
    } else {
        spec_combine_two_step(
            spec_combine_two(spk, ikb, e1, e2, (k - 1) as nat),
            spk,
            ikb,
            e1,
            e2,
            256 - k,
        )
    }
}

/// One-time-pre-key toggle: with no one-time pre-key the simultaneous combiner
/// never takes the exp4 branch, and its result equals the independent
/// two-term-only combiner on the same keys and exponents — whatever the unused
/// exp4 buffer holds.
pub proof fn lemma_no_opk_equals_two_term(
    spk: Seq<u8>,
    ikb: Seq<u8>,
    e1: Seq<u8>,
    e2: Seq<u8>,
    e4: Seq<u8>,
    k: nat,
)
    ensures
        spec_combine(spk, ikb, None, e1, e2, e4, k) == spec_combine_two(spk, ikb, e1, e2, k),
    decreases k,
{
    if k > 0 {
        lemma_no_opk_equals_two_term(spk, ikb, e1, e2, e4, (k - 1) as nat);
    }
}

/// Label selection: the info label is the hybrid label exactly when a KEM
/// shared secret is folded in, and the KEM pre-key never influences the
/// combined Diffie-Hellman point — parameters differing only there share it.
pub proof fn lemma_kem_selects_label_only(
    p1: HandshakeParameters,
    p2: HandshakeParameters,
    ss: Seq<u8>,
)
    requires
        p1.our_identity_key_pair == p2.our_identity_key_pair,
        p1.our_base_key_pair == p2.our_base_key_pair,
        p1.their_identity_key == p2.their_identity_key,
        p1.their_signed_pre_key == p2.their_signed_pre_key,
        p1.their_ratchet_key == p2.their_ratchet_key,
        p1.their_one_time_pre_key == p2.their_one_time_pre_key,
    ensures
        spec_combined_point(p1) == spec_combined_point(p2),
        spec_pqmudh_key(p1, Some(ss)) == hkdf_sha256_64_of(
            spec_secret_material(p1) + ss,
            crate::key_derivation::hybrid_label(),
        ),
        spec_pqmudh_key(p1, None) == hkdf_sha256_64_of(
            spec_secret_material(p1),
            crate::key_derivation::classical_label(),
        ),
{
    assert(spec_transcript(p1) == spec_transcript(p2));
}

} // verus!
