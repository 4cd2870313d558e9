use chrono::{DateTime, Datelike, Timelike};
use ruv_swarm::agent::EphemeralAgent;
use ruv_swarm::clock::{day_of_week, elapsed_millis, hour_of_day, time_of_day_millis};
use ruv_swarm::status::AgentType;

fn check_against_calendar(ts: i64) {
    let t = DateTime::from_timestamp_millis(ts).expect("timestamp in range");
    assert_eq!(hour_of_day(ts), t.hour(), "hour of {}", ts);
    assert_eq!(day_of_week(ts), t.weekday().number_from_monday(), "weekday of {}", ts);
}

#[test]
fn epoch_is_a_thursday_at_midnight() {
    assert_eq!(hour_of_day(0), 0);
    assert_eq!(day_of_week(0), 4);
    assert_eq!(time_of_day_millis(0), 0);
}

#[test]
fn hour_and_weekday_of_known_instants() {
    // 2000-01-12 01:02:03.004 UTC was a Wednesday.
    assert_eq!(hour_of_day(947_638_923_004), 1);
    assert_eq!(day_of_week(947_638_923_004), 3);
    // 2001-09-09 01:46:40.555 UTC was a Sunday.
    assert_eq!(hour_of_day(1_000_000_000_555), 1);
    assert_eq!(day_of_week(1_000_000_000_555), 7);
    // One millisecond before the epoch: Wednesday, 23 h.
    assert_eq!(hour_of_day(-1), 23);
    assert_eq!(day_of_week(-1), 3);
    assert_eq!(time_of_day_millis(-1), 86_399_999);
}

#[test]
fn hour_and_weekday_agree_with_the_calendar() {
    let samples: [i64; 12] = [
        0,
        1,
        -1,
        86_399_999,
        86_400_000,
        -86_400_000,
        -86_400_001,
        1_700_000_000_000,
        1_735_689_599_999,
        1_735_689_600_000,
        -2_208_988_800_000,
        253_402_300_799_999,
    ];
    for ts in samples {
        check_against_calendar(ts);
    }
    let mut ts: i64 = -5_000_000_000_000;
    while ts < 5_000_000_000_000 {
        check_against_calendar(ts);
        ts += 37_123_456_789;
    }
}

#[test]
fn elapsed_is_the_difference_or_zero() {
    assert_eq!(elapsed_millis(100, 250), 150);
    assert_eq!(elapsed_millis(250, 100), 0);
    assert_eq!(elapsed_millis(7, 7), 0);
    assert_eq!(elapsed_millis(i64::MIN, i64::MAX), u64::MAX);
    assert_eq!(elapsed_millis(-5, 5), 10);
}

#[test]
fn the_clock_reads_a_present_day_time() {
    let a = EphemeralAgent::new(AgentType::Solver).created_at;
    let b = EphemeralAgent::new(AgentType::Solver).created_at;
    // After 2020-01-01 and not going backwards by more than a second.
    assert!(a > 1_577_836_800_000);
    assert!(b + 1000 >= a);
}

#[test]
fn fresh_identifiers_are_version_four() {
    let a = EphemeralAgent::new(AgentType::Solver).id;
    let b = EphemeralAgent::new(AgentType::Solver).id;
    assert_ne!(a, b);
    assert_eq!((a >> 76) & 0xf, 4);
    assert_eq!(uuid::Uuid::from_u128(a).get_version_num(), 4);
}
