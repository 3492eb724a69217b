use chrono::{DateTime, NaiveDate};
use lursystem::handlers::audit::AuditFilters;
use lursystem::time::{Timestamp, DAY_SECONDS, MAX_DAY, MIN_DAY, YEAR_10000};

#[test]
fn days_reach_as_far_as_those_of_chrono() {
    assert_eq!(NaiveDate::MIN.to_epoch_days(), MIN_DAY);
    assert_eq!(NaiveDate::MAX.to_epoch_days(), MAX_DAY);
    assert_eq!(DAY_SECONDS, 24 * 60 * 60);
    assert_eq!(
        DateTime::from_timestamp(YEAR_10000, 0).unwrap().date_naive(),
        NaiveDate::from_ymd_opt(10000, 1, 1).unwrap()
    );
}

#[test]
fn instants_reach_as_far_as_those_of_chrono() {
    let first = MIN_DAY as i64 * DAY_SECONDS;
    let end = (MAX_DAY as i64 + 1) * DAY_SECONDS;
    for secs in [
        i64::MIN,
        first - 1,
        first,
        first + 59,
        -61,
        -60,
        -1,
        0,
        58,
        59,
        60,
        119,
        1778491859,
        end - 1,
        end,
        i64::MAX,
    ] {
        for nanos in [0, 1, 999_999_999, 1_000_000_000, 1_999_999_999, 2_000_000_000, u32::MAX] {
            let chrono = DateTime::from_timestamp(secs, nanos);
            match Timestamp::new(secs, nanos) {
                Some(instant) => {
                    assert!(chrono.is_some(), "{} {}", secs, nanos);
                    assert_eq!(instant.unix_seconds(), chrono.unwrap().timestamp());
                    assert_eq!(instant.subsec_nanos(), chrono.unwrap().timestamp_subsec_nanos());
                }
                None => assert!(chrono.is_none(), "{} {}", secs, nanos),
            }
        }
    }
}

#[test]
fn instants_are_written() {
    let instant = Timestamp::new(1778491859, 999_999_999).unwrap();
    assert_eq!(instant.minute_text(), "2026-05-11 09:30");
    assert_eq!(instant.second_text(), "2026-05-11 09:30:59");
    assert_eq!(instant.date_text(), "2026-05-11");
    let leap = Timestamp::new(59, 1_500_000_000).unwrap();
    assert_eq!(leap.second_text(), "1970-01-01 00:00:60");
    assert_eq!(Timestamp::new(-1, 0).unwrap().second_text(), "1969-12-31 23:59:59");
    assert_eq!(Timestamp::new(YEAR_10000, 0).unwrap().date_text(), "+10000-01-01");
    assert_eq!(Timestamp::new(YEAR_10000 - 1, 0).unwrap().date_text(), "9999-12-31");
}

#[test]
fn instants_at_the_ends_are_written() {
    let first = Timestamp::new(MIN_DAY as i64 * DAY_SECONDS, 0).unwrap();
    let last = Timestamp::new((MAX_DAY as i64 + 1) * DAY_SECONDS - 1, 0).unwrap();
    for instant in [&first, &last] {
        let date = NaiveDate::parse_from_str(&instant.date_text(), "%Y-%m-%d").unwrap();
        assert_eq!(
            date.to_epoch_days() as i64,
            instant.unix_seconds().div_euclid(DAY_SECONDS)
        );
        assert!(!instant.minute_text().is_empty());
        assert!(!instant.second_text().is_empty());
    }
}

#[test]
fn instants_are_ordered() {
    let at = |secs: i64, nanos: u32| Timestamp::new(secs, nanos).unwrap();
    assert!(at(1, 0).is_after(&at(0, 999_999_999)));
    assert!(at(0, 1).is_after(&at(0, 0)));
    assert!(!at(0, 0).is_after(&at(0, 0)));
    assert!(!at(-1, 5).is_after(&at(0, 0)));
    assert_eq!(at(7, 8).copy().unix_seconds(), 7);
    assert_eq!(at(7, 8).copy().subsec_nanos(), 8);
}

#[test]
fn dates_are_read_as_midnight() {
    let since = |query: &str| {
        AuditFilters::from_request(query)
            .since
            .map(|instant| (instant.unix_seconds(), instant.subsec_nanos()))
    };
    assert_eq!(since("since=1970-01-02"), Some((86400, 0)));
    assert_eq!(since("since=2026-05-11"), Some((1778457600, 0)));
    assert_eq!(since("since=1969-12-31"), Some((-86400, 0)));
    assert_eq!(since("since=2024-02-29"), Some((1709164800, 0)));
    assert_eq!(since("since=2026-02-29"), None);
    assert_eq!(since("since=2026-05-11x"), None);
    assert_eq!(since("since="), None);
    assert_eq!(since(""), None);
}
