//! Sample statistics over measured durations, in exact integer arithmetic.
//!
//! The mean is reported as the exact fraction `sum / count`, and the
//! Bessel-corrected sample variance as the exact fraction
//! `variance_num / variance_den` with
//! `variance_num == n * (sum of squares) - sum^2` and
//! `variance_den == n * (n - 1)`; `lemma_bessel` shows this fraction equals
//! the sum of squared deviations from the mean divided by `n - 1`.

use vstd::prelude::*;

verus! {

/// The sum of the samples.
pub open spec fn sum_of(s: Seq<u32>) -> int
    decreases s.len(),
{
    if s.len() == 0 {
        0
    } else {
        s[0] + sum_of(s.drop_first())
    }
}

/// The sum of the squared samples.
pub open spec fn sum_sq_of(s: Seq<u32>) -> int
    decreases s.len(),
{
    if s.len() == 0 {
        0
    } else {
        s[0] * s[0] + sum_sq_of(s.drop_first())
    }
}

/// The sum of squared deviations, cleared of the mean's denominator: with
/// `n` the sample count and `total` the sample sum, each sample `d`
/// contributes `(n*d - total)^2 == n^2 * (d - total/n)^2`.
pub open spec fn dev_sq_sum(s: Seq<u32>, n: int, total: int) -> int
    decreases s.len(),
{
    if s.len() == 0 {
        0
    } else {
        (n * s[0] - total) * (n * s[0] - total) + dev_sq_sum(s.drop_first(), n, total)
    }
}

proof fn lemma_dev_alg(n: int, t: int, a: int, s2r: int, sr: int, lr: int, devr: int)
    by (nonlinear_arith)
    requires
        devr == n * n * s2r - 2 * n * t * sr + lr * (t * t),
    ensures
        (n * a - t) * (n * a - t) + devr
            == n * n * (a * a + s2r) - 2 * n * t * (a + sr) + (lr + 1) * (t * t),
{
}

proof fn lemma_dev_expand(s: Seq<u32>, n: int, t: int)
    ensures
        dev_sq_sum(s, n, t) == n * n * sum_sq_of(s) - 2 * n * t * sum_of(s) + s.len() * (t * t),
    decreases s.len(),
{
    if s.len() == 0 {
    } else {
        let rest = s.drop_first();
        lemma_dev_expand(rest, n, t);
        lemma_dev_alg(n, t, s[0] as int, sum_sq_of(rest), sum_of(rest), rest.len() as int,
            dev_sq_sum(rest, n, t));
    }
}

proof fn lemma_dev_nonneg(s: Seq<u32>, n: int, t: int)
    ensures
        dev_sq_sum(s, n, t) >= 0,
    decreases s.len(),
{
    if s.len() > 0 {
        lemma_dev_nonneg(s.drop_first(), n, t);
        let d = n * s[0] - t;
        assert(d * d >= 0) by (nonlinear_arith);
    }
}

proof fn lemma_bessel_factor(n: int, t: int, s2: int)
    by (nonlinear_arith)
    ensures
        n * n * s2 - 2 * n * t * t + n * (t * t) == n * (n * s2 - t * t),
{
}

/// Bessel's correction, cleared of denominators: the sum of squared deviations
/// from the mean, scaled by `n^2`, equals `n * (n * sum_sq - sum^2)`. Dividing
/// both sides by `n^2 * (n - 1)` shows that
/// `(n * sum_sq - sum^2) / (n * (n - 1))` is exactly the sum of squared
/// deviations divided by `n - 1`.
pub proof fn lemma_bessel(s: Seq<u32>)
    ensures
        dev_sq_sum(s, s.len() as int, sum_of(s))
            == s.len() * (s.len() * sum_sq_of(s) - sum_of(s) * sum_of(s)),
        s.len() * sum_sq_of(s) - sum_of(s) * sum_of(s) >= 0,
{
    let n = s.len() as int;
    let t = sum_of(s);
    lemma_dev_expand(s, n, t);
    lemma_bessel_factor(n, t, sum_sq_of(s));
    lemma_dev_nonneg(s, n, t);
    assert(n * (n * sum_sq_of(s) - t * t) >= 0);
    if n > 0 {
        assert(n * sum_sq_of(s) - t * t >= 0) by (nonlinear_arith)
            requires
                n > 0,
                n * (n * sum_sq_of(s) - t * t) >= 0,
        ;
    }
}

proof fn lemma_sum_push(s: Seq<u32>, x: u32)
    ensures
        sum_of(s.push(x)) == sum_of(s) + x,
        sum_sq_of(s.push(x)) == sum_sq_of(s) + x * x,
    decreases s.len(),
{
    if s.len() == 0 {
        assert(s.push(x).drop_first() =~= Seq::<u32>::empty());
        assert(s.push(x)[0] == x);
        assert(sum_of(s.push(x)) == s.push(x)[0] + sum_of(s.push(x).drop_first()));
        assert(sum_sq_of(s.push(x)) == s.push(x)[0] * s.push(x)[0] + sum_sq_of(s.push(x).drop_first()));
    } else {
        assert(s.push(x).drop_first() =~= s.drop_first().push(x));
        lemma_sum_push(s.drop_first(), x);
        assert(s.push(x)[0] == s[0]);
        assert(sum_of(s.push(x)) == s.push(x)[0] + sum_of(s.push(x).drop_first()));
        assert(sum_sq_of(s.push(x)) == s.push(x)[0] * s.push(x)[0] + sum_sq_of(s.push(x).drop_first()));
    }
}

proof fn lemma_sum_bounds(s: Seq<u32>)
    ensures
        0 <= sum_of(s) <= s.len() * 0xffff_ffff,
        0 <= sum_sq_of(s) <= s.len() * 0xffff_fffe_0000_0001,
    decreases s.len(),
{
    if s.len() > 0 {
        lemma_sum_bounds(s.drop_first());
        let a = s[0] as int;
        assert(a * a <= 0xffff_fffe_0000_0001) by (nonlinear_arith)
            requires
                0 <= a <= 0xffff_ffff,
        ;
    }
}

/// The exact sample statistics of a run of measured durations.
pub struct SampleStats {
    /// The sum of the samples; the arithmetic mean is `sum / count` exactly.
    pub sum: u64,
    /// The number of samples.
    pub count: u64,
    /// The numerator of the Bessel-corrected sample variance.
    pub variance_num: u128,
    /// Its denominator: `count * (count - 1)`.
    pub variance_den: u64,
}

/// Computes the exact aggregates of the sample statistics: the reported mean
/// is `sum / count` (the arithmetic mean), and the reported variance
/// `variance_num / variance_den` carries Bessel's correction — it equals the
/// sum of squared deviations from the mean divided by `count - 1`
/// (`lemma_bessel`). The standard deviation is the square root of that
/// fraction, left to the caller's floating-point layer.
pub fn vector_stats(samples: &Vec<u32>) -> (r: SampleStats)
    requires
        samples@.len() >= 2,
        samples@.len() < 0x1_0000_0000,
    ensures
        r.count == samples@.len(),
        r.sum == sum_of(samples@),
        r.variance_num == samples@.len() * sum_sq_of(samples@) - sum_of(samples@) * sum_of(samples@),
        r.variance_den == samples@.len() * (samples@.len() - 1),
{
    let n_usize: usize = samples.len();
    let mut sum: u64 = 0;
    let mut sum_sq: u128 = 0;
    let mut i: usize = 0;
    while i < n_usize
        invariant
            n_usize == samples@.len(),
            2 <= n_usize < 0x1_0000_0000,
            i <= n_usize,
            sum == sum_of(samples@.take(i as int)),
            sum_sq == sum_sq_of(samples@.take(i as int)),
        decreases n_usize - i,
    {
        let x: u32 = samples[i];
        proof {
            assert(samples@.take(i as int + 1) =~= samples@.take(i as int).push(samples@[i as int]));
            lemma_sum_push(samples@.take(i as int), samples@[i as int]);
            lemma_sum_bounds(samples@.take(i as int));
            assert(x as int * x as int <= 0xffff_fffe_0000_0001) by (nonlinear_arith)
                requires
                    0 <= x <= 0xffff_ffff,
            ;
        }
        sum = sum + x as u64;
        sum_sq = sum_sq + (x as u128) * (x as u128);
        i = i + 1;
    }
    proof {
        assert(samples@.take(n_usize as int) =~= samples@);
        lemma_sum_bounds(samples@);
        lemma_bessel(samples@);
        let n = samples@.len() as int;
        assert(n * sum_sq_of(samples@) <= n * (n * 0xffff_fffe_0000_0001)) by (nonlinear_arith)
            requires
                n >= 0,
                sum_sq_of(samples@) <= n * 0xffff_fffe_0000_0001,
        ;
        assert(n * (n * 0xffff_fffe_0000_0001) < 0x1_0000_0000_0000_0000_0000_0000_0000_0000)
            by (nonlinear_arith)
            requires
                0 <= n < 0x1_0000_0000,
        ;
        assert(n * (n - 1) < 0x1_0000_0000_0000_0000) by (nonlinear_arith)
            requires
                0 <= n < 0x1_0000_0000,
        ;
    }
    let n64: u64 = n_usize as u64;
    let variance_num: u128 = (n64 as u128) * sum_sq - (sum as u128) * (sum as u128);
    let variance_den: u64 = n64 * (n64 - 1);
    SampleStats { sum, count: n64, variance_num, variance_den }
}

} // verus!
