use sentinel_bot::dates::{duel_age_secs, minutes_since, seconds_since, seconds_until};
use sentinel_bot::profile::{rest_decision_at, RestOutcome};

const NEW_YEAR_2024: i64 = 1_704_067_200;

#[test]
fn expiry_seconds_from_rfc3339() {
    assert_eq!(seconds_until("2024-01-01T01:00:00Z", NEW_YEAR_2024, 0), Some(3600));
    assert_eq!(seconds_until("2024-01-01T01:00:00+01:00", NEW_YEAR_2024, 0), Some(0));
    assert_eq!(seconds_until("2023-12-31T23:59:00Z", NEW_YEAR_2024, 0), Some(-60));
    assert_eq!(seconds_until("demain", NEW_YEAR_2024, 0), None);
}

#[test]
fn fractions_of_seconds_count_before_truncating() {
    assert_eq!(seconds_until("2024-01-01T00:00:10.5Z", NEW_YEAR_2024, 600_000_000), Some(9));
    assert_eq!(seconds_until("2024-01-01T00:00:00.5Z", NEW_YEAR_2024 + 1, 0), Some(0));
    assert_eq!(minutes_since("2024-01-01T00:00:00.5Z", NEW_YEAR_2024 + 60, 0), Some(0));
    assert_eq!(seconds_since("2024-01-01T00:00:00.25Z", NEW_YEAR_2024 + 3, 0), Some(2));
}

#[test]
fn leap_second_counts_as_chrono_counts_it() {
    assert_eq!(seconds_since("2016-12-31T23:59:60Z", 1_483_228_801, 0), Some(1));
    assert_eq!(seconds_since("2016-12-31T23:59:60Z", 1_483_228_800, 0), Some(0));
}

#[test]
fn elapsed_minutes_round_toward_zero() {
    assert_eq!(minutes_since("2024-01-01T00:00:00Z", NEW_YEAR_2024 + 150, 0), Some(2));
    assert_eq!(minutes_since("2024-01-01T00:00:00Z", NEW_YEAR_2024 - 150, 0), Some(-2));
    assert_eq!(minutes_since("2024-13-01T00:00:00Z", NEW_YEAR_2024, 0), None);
    assert_eq!(seconds_since("2024-01-01T00:00:00Z", NEW_YEAR_2024 + 42, 0), Some(42));
}

#[test]
fn unreadable_duel_creation_counts_as_now() {
    assert_eq!(duel_age_secs("2024-01-01T00:00:00Z", NEW_YEAR_2024 + 90, 0), 90);
    assert_eq!(duel_age_secs("hier", NEW_YEAR_2024 + 90, 0), 0);
}

#[test]
fn rest_from_the_last_rest_text() {
    let last = Some("2024-01-01T00:00:00Z");
    assert_eq!(
        rest_decision_at(12, last, NEW_YEAR_2024 + 3600, 0, Some(40), Some(100)),
        RestOutcome::Cooldown { hours: 11, minutes: 0 }
    );
    assert_eq!(
        rest_decision_at(12, last, NEW_YEAR_2024 + 12 * 3600, 0, Some(40), Some(100)),
        RestOutcome::Healed { healed: 60, hp_max: 100 }
    );
    assert_eq!(
        rest_decision_at(12, Some("pas une date"), NEW_YEAR_2024, 0, Some(100), Some(100)),
        RestOutcome::AlreadyFull
    );
}
