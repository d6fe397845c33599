//! Little-endian byte encodings of unsigned integers, and the byte-buffer
//! helpers shared by the handshake computations.

use vstd::prelude::*;

verus! {

/// The unsigned integer encoded by `s` in little-endian base 256.
pub open spec fn le_bytes(s: Seq<u8>) -> nat
    decreases s.len(),
{
    if s.len() == 0 {
        0
    } else {
        s[0] as nat + 256 * le_bytes(s.subrange(1, s.len() as int))
    }
}

/// The `n`-byte little-endian encoding of `v` (truncated to `n` digits).
pub open spec fn le_digits(v: nat, n: nat) -> Seq<u8>
    decreases n,
{
    if n == 0 {
        Seq::empty()
    } else {
        seq![(v % 256) as u8] + le_digits(v / 256, (n - 1) as nat)
    }
}

/// A byte sequence is exactly the little-endian digit string of its value.
pub proof fn lemma_le_bytes_roundtrip(s: Seq<u8>)
    ensures
        le_digits(le_bytes(s), s.len()) == s,
    decreases s.len(),
{
    if s.len() > 0 {
        let rest = s.subrange(1, s.len() as int);
        let v = le_bytes(s);
        assert(v == s[0] as nat + le_bytes(rest) * 256) by {
            assert(256 * le_bytes(rest) == le_bytes(rest) * 256) by (nonlinear_arith);
        }
        vstd::arithmetic::div_mod::lemma_fundamental_div_mod_converse(
            v as int,
            256,
            le_bytes(rest) as int,
            s[0] as int,
        );
        lemma_le_bytes_roundtrip(rest);
        assert(le_digits(v, s.len()) == seq![(v % 256) as u8] + le_digits(v / 256, (s.len() - 1) as nat));
        assert(le_digits(v, s.len()) =~= s);
    }
}

/// Appending a zero byte on the high end does not change the encoded value.
pub proof fn lemma_le_bytes_push_zero(s: Seq<u8>)
    ensures
        le_bytes(s.push(0u8)) == le_bytes(s),
    decreases s.len(),
{
    if s.len() == 0 {
        assert(s.push(0u8).subrange(1, 1) =~= Seq::<u8>::empty());
        assert(le_bytes(s.push(0u8)) == 0u8 as nat + 256 * le_bytes(Seq::<u8>::empty()));
    } else {
        let rest = s.subrange(1, s.len() as int);
        assert(s.push(0u8).subrange(1, s.len() as int + 1) =~= rest.push(0u8));
        lemma_le_bytes_push_zero(rest);
        assert(s.push(0u8)[0] == s[0]);
        assert(le_bytes(s.push(0u8))
            == s.push(0u8)[0] as nat + 256 * le_bytes(s.push(0u8).subrange(1, s.len() as int + 1)));
    }
}

/// Zero-pads a little-endian buffer on the high end to the fixed 32-byte width.
pub fn pad_to_32(v: &mut Vec<u8>)
    requires
        old(v)@.len() <= 32,
    ensures
        final(v)@.len() == 32,
        le_bytes(final(v)@) == le_bytes(old(v)@),
        final(v)@ == le_digits(le_bytes(old(v)@), 32),
{
    while v.len() < 32
        invariant
            v@.len() <= 32,
            le_bytes(v@) == le_bytes(old(v)@),
        decreases 32 - v@.len(),
    {
        proof {
            lemma_le_bytes_push_zero(v@);
        }
        v.push(0u8);
    }
    proof {
        lemma_le_bytes_roundtrip(v@);
    }
}

/// Appends `src` to `dst`.
pub fn append_bytes(dst: &mut Vec<u8>, src: &[u8])
    ensures
        final(dst)@ == old(dst)@ + src@,
{
    let mut i: usize = 0;
    while i < src.len()
        invariant
            i <= src@.len(),
            dst@ == old(dst)@ + src@.take(i as int),
        decreases src@.len() - i,
    {
        dst.push(src[i]);
        proof {
            assert(old(dst)@ + src@.take(i as int) + seq![src@[i as int]]
                =~= old(dst)@ + src@.take(i as int + 1));
        }
        i = i + 1;
    }
    proof {
        assert(src@.take(src@.len() as int) =~= src@);
    }
}

} // verus!
