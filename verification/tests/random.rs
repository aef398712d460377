use slot_engine::error::ErrorCode;
use slot_engine::random::next_random;
use slot_engine::random::random_from_timestamp;
use slot_engine::random::scramble;

#[test]
fn scramble_is_one_linear_congruential_step() {
    assert_eq!(scramble(0), 12_345);
    assert_eq!(scramble(1), 1_103_527_590);
    assert_eq!(scramble(2), 2_207_042_835);
    assert_eq!(scramble(4), 119_106_029);
    assert_eq!(scramble(u32::MAX), 3_191_464_396);
}

#[test]
fn random_from_timestamp_exact_values() {
    assert_eq!(random_from_timestamp(0), 12_345);
    assert_eq!(random_from_timestamp(1), 1_103_527_590);
    assert_eq!(random_from_timestamp(1_700_000_000), 506_187_065);
}

#[test]
fn random_from_timestamp_takes_the_time_modulo_two_to_the_32() {
    assert_eq!(random_from_timestamp(4_294_967_296), 12_345);
    assert_eq!(random_from_timestamp(4_294_967_297), 1_103_527_590);
    assert_eq!(random_from_timestamp(-1), 3_191_464_396);
    assert_eq!(random_from_timestamp(i64::MIN), 12_345);
    assert_eq!(random_from_timestamp(i64::MAX), 3_191_464_396);
}

#[test]
fn random_from_timestamp_repeats_within_one_second() {
    let first = random_from_timestamp(1_700_000_000);
    let second = random_from_timestamp(1_700_000_000);
    assert_eq!(first, second);
    assert_ne!(first, random_from_timestamp(1_700_000_001));
}

#[test]
fn next_random_without_a_runtime_clock_is_clock_unavailable() {
    assert_eq!(next_random(), Err(ErrorCode::ClockUnavailable));
}
