use pqmudh::stats::vector_stats;

#[test]
fn stats_example_durations() {
    // Durations [10, 20, 30]: mean 20, Bessel-corrected standard deviation 10.
    let samples = vec![10u32, 20, 30];
    let s = vector_stats(&samples);
    assert_eq!(s.count, 3);
    assert_eq!(s.sum, 60);
    assert_eq!(s.sum % s.count, 0);
    assert_eq!(s.sum / s.count, 20);
    // variance = 600 / 6 = 100; standard deviation = 10.
    assert_eq!(s.variance_num, 600);
    assert_eq!(s.variance_den, 6);
    assert_eq!(s.variance_num / s.variance_den as u128, 100);
}

#[test]
fn stats_bessel_correction() {
    // [1, 2, 3, 4]: sum 10, sum of squares 30; the sample variance is
    // (4*30 - 100) / (4*3) = 20/12 = 5/3, not the population variance 5/4.
    let samples = vec![1u32, 2, 3, 4];
    let s = vector_stats(&samples);
    assert_eq!(s.count, 4);
    assert_eq!(s.sum, 10);
    assert_eq!(s.variance_num, 20);
    assert_eq!(s.variance_den, 12);
}

#[test]
fn stats_equal_samples_have_zero_variance() {
    let samples = vec![5u32, 5, 5, 5, 5];
    let s = vector_stats(&samples);
    assert_eq!(s.sum, 25);
    assert_eq!(s.variance_num, 0);
}

#[test]
fn stats_two_large_samples() {
    // Values at the top of the u32 range must not overflow the aggregates.
    let samples = vec![u32::MAX, u32::MAX - 2];
    let s = vector_stats(&samples);
    assert_eq!(s.sum, 2 * (u32::MAX as u64) - 2);
    // n*sumsq - sum^2 = (d1 - d2)^2 for n = 2.
    assert_eq!(s.variance_num, 4);
    assert_eq!(s.variance_den, 2);
}
