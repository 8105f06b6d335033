use latency_probe::config::{
    combined_delay, Config, DEFAULT_REP, MILLIS_PER_HOUR, MILLIS_PER_MINUTE, MILLIS_PER_SECOND,
    REQUEST_TIMEOUT_SECONDS,
};

#[test]
fn delay_without_parts_is_zero() {
    assert_eq!(combined_delay(None, None, None, None), Some(0));
}

#[test]
fn delay_of_each_part_alone() {
    assert_eq!(combined_delay(Some(7), None, None, None), Some(7));
    assert_eq!(combined_delay(None, Some(7), None, None), Some(7_000));
    assert_eq!(combined_delay(None, None, Some(7), None), Some(420_000));
    assert_eq!(combined_delay(None, None, None, Some(7)), Some(25_200_000));
}

#[test]
fn delay_adds_all_parts() {
    assert_eq!(combined_delay(Some(250), Some(3), Some(2), Some(1)), Some(3_723_250));
}

#[test]
fn delay_units() {
    assert_eq!(MILLIS_PER_SECOND, 1_000);
    assert_eq!(MILLIS_PER_MINUTE, 60 * MILLIS_PER_SECOND);
    assert_eq!(MILLIS_PER_HOUR, 60 * MILLIS_PER_MINUTE);
}

#[test]
fn delay_at_the_limit() {
    assert_eq!(combined_delay(Some(u128::MAX), None, None, None), Some(u128::MAX));
    assert_eq!(combined_delay(Some(u128::MAX), Some(0), Some(0), Some(0)), Some(u128::MAX));
    assert_eq!(
        combined_delay(Some(u128::MAX - 1_000), Some(1), None, None),
        Some(u128::MAX)
    );
}

#[test]
fn delay_that_does_not_fit() {
    assert_eq!(combined_delay(Some(u128::MAX), Some(1), None, None), None);
    assert_eq!(combined_delay(Some(u128::MAX), None, None, Some(1)), None);
    assert_eq!(combined_delay(None, Some(u128::MAX), None, None), None);
    assert_eq!(combined_delay(None, None, Some(u128::MAX / 60_000 + 1), None), None);
    assert_eq!(combined_delay(None, None, None, Some(u128::MAX / 3_600_000 + 1)), None);
    assert_eq!(combined_delay(Some(u128::MAX - 999), Some(1), None, None), None);
}

#[test]
fn config_keeps_url_and_repetitions() {
    let config = Config::new(
        String::from("http://localhost:8080/health"),
        5,
        Some(500),
        Some(1),
        None,
        None,
    )
    .unwrap();
    assert_eq!(config.url, "http://localhost:8080/health");
    assert_eq!(config.rep, 5);
    assert_eq!(config.wait_time, 1_500);
}

#[test]
fn config_does_not_judge_the_url() {
    let config = Config::new(String::from("not a url"), DEFAULT_REP, None, None, None, None);
    let config = config.unwrap();
    assert_eq!(config.url, "not a url");
    assert_eq!(config.rep, 1);
    assert_eq!(config.wait_time, 0);
}

#[test]
fn config_limits_a_request_to_five_minutes_and_draws() {
    let config = Config::new(String::from("http://localhost"), 1, None, None, None, None).unwrap();
    assert_eq!(REQUEST_TIMEOUT_SECONDS, 5 * 60);
    assert_eq!(config.timeout, Some(300));
    assert!(config.plot);
}

#[test]
fn config_without_a_fitting_delay() {
    assert!(Config::new(String::from("http://localhost"), 1, None, None, None, Some(u128::MAX))
        .is_none());
}
