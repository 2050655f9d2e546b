use chrono::{DateTime, NaiveDate};
use openweather_onecall::Timestamp;

#[test]
fn an_instant_keeps_its_seconds() {
    for seconds in [0i64, -1, 1618317040, 8210266876799, -8334601228800] {
        assert_eq!(Timestamp::from_seconds(seconds).unwrap().seconds(), seconds);
    }
}

#[test]
fn the_representable_instants_are_those_of_chrono() {
    assert!(Timestamp::from_seconds(8210266876799).is_some());
    assert!(Timestamp::from_seconds(8210266876800).is_none());
    assert!(Timestamp::from_seconds(-8334601228800).is_some());
    assert!(Timestamp::from_seconds(-8334601228801).is_none());
    assert!(Timestamp::from_seconds(i64::MAX).is_none());
    assert!(Timestamp::from_seconds(i64::MIN).is_none());
    assert_eq!(DateTime::<chrono::Utc>::MAX_UTC.timestamp(), 8210266876799);
    assert_eq!(DateTime::<chrono::Utc>::MIN_UTC.timestamp(), -8334601228800);
}

#[test]
fn an_instant_has_its_date_and_time_of_day() {
    let instant = Timestamp::from_seconds(1618317040).unwrap();
    assert_eq!(
        instant.naive_utc(),
        NaiveDate::from_ymd_opt(2021, 4, 13).unwrap().and_hms_opt(12, 30, 40).unwrap()
    );
    let epoch = Timestamp::from_seconds(0).unwrap();
    assert_eq!(
        epoch.naive_utc(),
        NaiveDate::from_ymd_opt(1970, 1, 1).unwrap().and_hms_opt(0, 0, 0).unwrap()
    );
    let last = Timestamp::from_seconds(8210266876799).unwrap();
    assert_eq!(
        last.naive_utc(),
        NaiveDate::from_ymd_opt(262142, 12, 31).unwrap().and_hms_opt(23, 59, 59).unwrap()
    );
}
