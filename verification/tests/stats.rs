use latency_probe::sample::{Sample, NANOS_PER_MILLI};
use latency_probe::stats::{calc_stats, sorted_millis, Stats};

fn millis(values: &[u64]) -> Vec<Sample> {
    values.iter().map(|v| Sample::from_millis(*v)).collect()
}

#[test]
fn sample_cuts_off_below_a_millisecond() {
    assert_eq!(NANOS_PER_MILLI, 1_000_000);
    assert_eq!(Sample::from_nanos(0).as_millis(), 0);
    assert_eq!(Sample::from_nanos(999_999).as_millis(), 0);
    assert_eq!(Sample::from_nanos(1_000_000).as_millis(), 1);
    assert_eq!(Sample::from_nanos(1_999_999).as_millis(), 1);
    assert_eq!(Sample::from_nanos(123_456_789_012).as_millis(), 123_456);
    assert_eq!(Sample::from_nanos(u128::MAX).as_millis(), u128::MAX / 1_000_000);
}

#[test]
fn sample_from_millis() {
    assert_eq!(Sample::from_millis(0), Sample { nanos: 0 });
    assert_eq!(Sample::from_millis(15), Sample { nanos: 15_000_000 });
    assert_eq!(Sample::from_millis(15).as_millis(), 15);
    assert_eq!(Sample::from_millis(u64::MAX).as_millis(), u128::from(u64::MAX));
}

#[test]
fn sample_is_like_a_duration() {
    let duration = std::time::Duration::new(3, 141_592_653);
    assert_eq!(Sample::from_nanos(duration.as_nanos()).as_millis(), duration.as_millis());
    let longest = std::time::Duration::MAX;
    assert_eq!(Sample::from_nanos(longest.as_nanos()).as_millis(), longest.as_millis());
}

#[test]
fn no_sample_no_stats() {
    assert_eq!(calc_stats(&Vec::new()), None);
}

#[test]
fn one_sample() {
    assert_eq!(calc_stats(&millis(&[42])), Some(Stats { min: 42, max: 42, avg: 42 }));
    assert_eq!(calc_stats(&millis(&[0])), Some(Stats { min: 0, max: 0, avg: 0 }));
}

#[test]
fn average_is_rounded_down() {
    assert_eq!(
        calc_stats(&millis(&[100, 100, 101])),
        Some(Stats { min: 100, max: 101, avg: 100 })
    );
    assert_eq!(calc_stats(&millis(&[1, 2])), Some(Stats { min: 1, max: 2, avg: 1 }));
    assert_eq!(calc_stats(&millis(&[0, 0, 0, 3])), Some(Stats { min: 0, max: 3, avg: 0 }));
    assert_eq!(calc_stats(&millis(&[2, 2, 3])), Some(Stats { min: 2, max: 3, avg: 2 }));
}

#[test]
fn stats_of_unordered_samples() {
    assert_eq!(
        calc_stats(&millis(&[250, 12, 1_800, 97, 12, 640])),
        Some(Stats { min: 12, max: 1_800, avg: 468 })
    );
}

#[test]
fn stats_are_taken_of_whole_milliseconds() {
    let samples = vec![
        Sample::from_nanos(1_999_999),
        Sample::from_nanos(2_999_999),
        Sample::from_nanos(3_999_999),
    ];
    assert_eq!(calc_stats(&samples), Some(Stats { min: 1, max: 3, avg: 2 }));
}

#[test]
fn average_of_the_largest_samples_is_exact() {
    let largest = Sample::from_nanos(u128::MAX);
    let value = u128::MAX / 1_000_000;
    assert_eq!(
        calc_stats(&vec![largest; 7]),
        Some(Stats { min: value, max: value, avg: value })
    );
    let mut samples = vec![largest; 4];
    samples.push(Sample::from_nanos(0));
    assert_eq!(
        calc_stats(&samples),
        Some(Stats { min: 0, max: value, avg: value / 5 * 4 + value % 5 * 4 / 5 })
    );
}

#[test]
fn average_matches_the_plain_sum() {
    let mut samples = Vec::new();
    let mut sum: u128 = 0;
    let mut value: u64 = 17;
    for n in 1..200u128 {
        value = value * 7_919 % 100_003;
        samples.push(Sample::from_millis(value));
        sum += u128::from(value);
        assert_eq!(calc_stats(&samples).unwrap().avg, sum / n);
    }
}

#[test]
fn sorting_nothing() {
    assert!(sorted_millis(&Vec::new()).is_empty());
}

#[test]
fn sorting_orders_the_milliseconds() {
    assert_eq!(sorted_millis(&millis(&[30, 10, 50, 20, 40])), vec![10, 20, 30, 40, 50]);
    assert_eq!(sorted_millis(&millis(&[3, 1, 3, 2, 1])), vec![1, 1, 2, 3, 3]);
    assert_eq!(sorted_millis(&millis(&[5, 4, 3, 2, 1, 0])), vec![0, 1, 2, 3, 4, 5]);
    assert_eq!(sorted_millis(&millis(&[9])), vec![9]);
}

#[test]
fn sorting_agrees_with_the_standard_sort() {
    let mut samples = Vec::new();
    let mut value: u64 = 5;
    for _ in 0..500 {
        value = value * 48_271 % 2_147_483_647;
        samples.push(Sample::from_nanos(u128::from(value) * 1_000));
    }
    let mut expected: Vec<u128> = samples.iter().map(|s| s.as_millis()).collect();
    expected.sort();
    assert_eq!(sorted_millis(&samples), expected);
}
