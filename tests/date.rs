use oura::date::{days_in_month, Date, TimeOpts};

fn date(y: u32, m: u32, d: u32) -> Date {
    Date::from_ymd(y, m, d).unwrap()
}

#[test]
fn default_range_is_last_week() {
    let opts = TimeOpts { start: None, end: None };
    let (s, e) = opts.resolve(date(2024, 3, 15));
    assert_eq!(s.format(), "2024-03-08");
    assert_eq!(e.format(), "2024-03-15");
}

#[test]
fn default_start_follows_given_end() {
    let opts = TimeOpts { start: None, end: Some(date(2024, 3, 3)) };
    let (s, e) = opts.resolve(date(2030, 1, 1));
    assert_eq!(s, date(2024, 2, 25));
    assert_eq!(e, date(2024, 3, 3));
}

#[test]
fn inverted_range_passes_through() {
    let opts = TimeOpts { start: Some(date(2024, 5, 1)), end: Some(date(2024, 4, 1)) };
    let (s, e) = opts.resolve(date(2024, 3, 15));
    assert_eq!(s, date(2024, 5, 1));
    assert_eq!(e, date(2024, 4, 1));
}

#[test]
fn minus_days_crosses_year() {
    assert_eq!(date(2024, 1, 3).minus_days(7), date(2023, 12, 27));
    assert_eq!(date(2023, 3, 1).minus_days(1), date(2023, 2, 28));
    assert_eq!(date(2000, 3, 1).minus_days(1), date(2000, 2, 29));
    assert_eq!(date(2024, 3, 15).minus_days(0), date(2024, 3, 15));
}

#[test]
fn month_lengths() {
    assert_eq!(days_in_month(2024, 2), 29);
    assert_eq!(days_in_month(2023, 2), 28);
    assert_eq!(days_in_month(1900, 2), 28);
    assert_eq!(days_in_month(2000, 2), 29);
    assert_eq!(days_in_month(2023, 4), 30);
    assert_eq!(days_in_month(2023, 12), 31);
}

#[test]
fn from_ymd_rejects_impossible_dates() {
    assert_eq!(Date::from_ymd(2023, 2, 29), None);
    assert_eq!(Date::from_ymd(2023, 13, 1), None);
    assert_eq!(Date::from_ymd(2023, 4, 31), None);
    assert_eq!(Date::from_ymd(0, 1, 1), None);
    assert_eq!(Date::from_ymd(2024, 2, 29), Some(Date { year: 2024, month: 2, day: 29 }));
}

#[test]
fn parse_iso_dates() {
    assert_eq!(Date::parse("2024-03-15"), Some(date(2024, 3, 15)));
    assert_eq!(Date::parse("0001-01-01"), Some(date(1, 1, 1)));
    assert_eq!(Date::parse("2024-3-15"), None);
    assert_eq!(Date::parse("2024-03-1x"), None);
    assert_eq!(Date::parse("2024/03/15"), None);
    assert_eq!(Date::parse("2023-02-29"), None);
    assert_eq!(Date::parse(""), None);
}

#[test]
fn format_pads_with_zeros() {
    assert_eq!(date(987, 6, 5).format(), "0987-06-05");
    assert_eq!(date(2024, 12, 31).format(), "2024-12-31");
}

#[test]
fn epoch_days_to_dates() {
    assert_eq!(Date::from_epoch_days(0), Some(date(1970, 1, 1)));
    assert_eq!(Date::from_epoch_days(19797), Some(date(2024, 3, 15)));
    assert_eq!(Date::from_epoch_days(2932896), Some(date(9999, 12, 31)));
    assert_eq!(Date::from_epoch_days(2932897), None);
}
