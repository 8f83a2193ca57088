use media_import::date::{date_of_unix_time, resolve_creation_date, ImportDate, MetadataUnavailable};

fn ymd(date: ImportDate) -> (i32, u32, u32) {
    (date.year(), date.month(), date.day())
}

#[test]
fn date_of_the_epoch() {
    assert_eq!(date_of_unix_time(0).map(ymd), Some((1970, 1, 1)));
    assert_eq!(date_of_unix_time(86_399).map(ymd), Some((1970, 1, 1)));
    assert_eq!(date_of_unix_time(86_400).map(ymd), Some((1970, 1, 2)));
}

#[test]
fn date_of_a_time_before_the_epoch() {
    assert_eq!(date_of_unix_time(-1).map(ymd), Some((1969, 12, 31)));
    assert_eq!(date_of_unix_time(-86_400).map(ymd), Some((1969, 12, 31)));
    assert_eq!(date_of_unix_time(-86_401).map(ymd), Some((1969, 12, 30)));
    assert_eq!(date_of_unix_time(-2_208_988_800).map(ymd), Some((1900, 1, 1)));
}

#[test]
fn date_of_a_day_in_march_2021() {
    assert_eq!(date_of_unix_time(1_614_902_400).map(ymd), Some((2021, 3, 5)));
    assert_eq!(date_of_unix_time(1_614_988_799).map(ymd), Some((2021, 3, 5)));
    assert_eq!(date_of_unix_time(1_614_988_800).map(ymd), Some((2021, 3, 6)));
}

#[test]
fn date_in_leap_years() {
    assert_eq!(date_of_unix_time(1_582_934_400).map(ymd), Some((2020, 2, 29)));
    assert_eq!(date_of_unix_time(951_782_400).map(ymd), Some((2000, 2, 29)));
    assert_eq!(date_of_unix_time(4_107_542_400).map(ymd), Some((2100, 3, 1)));
    assert_eq!(date_of_unix_time(1_609_459_199).map(ymd), Some((2020, 12, 31)));
}

#[test]
fn date_at_the_ends_of_the_range() {
    let last = 8_210_266_876_799;
    let first = -8_334_601_228_800;
    assert_eq!(date_of_unix_time(last).map(ymd), Some((262_142, 12, 31)));
    assert_eq!(date_of_unix_time(last + 1), None);
    assert_eq!(date_of_unix_time(first).map(ymd), Some((-262_143, 1, 1)));
    assert_eq!(date_of_unix_time(first - 1), None);
    assert_eq!(date_of_unix_time(i64::MAX), None);
    assert_eq!(date_of_unix_time(i64::MIN), None);
}

#[test]
fn creation_time_is_taken_before_the_last_change() {
    let date = resolve_creation_date(Some(1_614_902_400), Some(0)).unwrap();
    assert_eq!(ymd(date), (2021, 3, 5));
}

#[test]
fn last_change_stands_in_for_a_missing_creation_time() {
    let date = resolve_creation_date(None, Some(1_614_902_400)).unwrap();
    assert_eq!(ymd(date), (2021, 3, 5));
}

#[test]
fn no_time_at_all_is_metadata_unavailable() {
    assert_eq!(resolve_creation_date(None, None), Err(MetadataUnavailable));
}

#[test]
fn a_time_beyond_the_calendar_is_metadata_unavailable() {
    assert_eq!(resolve_creation_date(Some(i64::MAX), Some(0)), Err(MetadataUnavailable));
    assert_eq!(resolve_creation_date(None, Some(i64::MIN)), Err(MetadataUnavailable));
}

#[test]
fn import_date_takes_days_of_the_calendar_only() {
    assert_eq!(ImportDate::new(2021, 3, 5).map(ymd), Some((2021, 3, 5)));
    assert_eq!(ImportDate::new(2020, 2, 29).map(ymd), Some((2020, 2, 29)));
    assert_eq!(ImportDate::new(2000, 2, 29).map(ymd), Some((2000, 2, 29)));
    assert_eq!(ImportDate::new(-4, 2, 29).map(ymd), Some((-4, 2, 29)));
    assert_eq!(ImportDate::new(2021, 2, 29), None);
    assert_eq!(ImportDate::new(1900, 2, 29), None);
    assert_eq!(ImportDate::new(-1, 2, 29), None);
    assert_eq!(ImportDate::new(2021, 4, 31), None);
    assert_eq!(ImportDate::new(2021, 0, 1), None);
    assert_eq!(ImportDate::new(2021, 13, 1), None);
    assert_eq!(ImportDate::new(2021, 1, 0), None);
    assert_eq!(ImportDate::new(2021, 1, 32), None);
    assert_eq!(ImportDate::new(2021, 12, 31).map(ymd), Some((2021, 12, 31)));
}

#[test]
fn resolved_dates_are_dates_of_the_calendar() {
    for seconds in [0_i64, -1, 1_582_934_400, 951_782_400, 4_107_542_400, -2_208_988_800] {
        let date = date_of_unix_time(seconds).unwrap();
        assert_eq!(ImportDate::new(date.year(), date.month(), date.day()), Some(date));
    }
}
