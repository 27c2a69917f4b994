use chrono::{Datelike, NaiveDate};
use migration_gen::scan::parse_entry;
use regex::Regex;

fn pattern() -> Regex {
    Regex::new("^\\d{8}(\\d{2}).*$").unwrap()
}

/// Reads a file name with a pattern and a date format.
fn read_with_pattern(pattern: &Regex, name: &str) -> Option<(NaiveDate, i32)> {
    let found = pattern.captures(name)?;
    let whole = found.get(0)?.as_str();
    let date = NaiveDate::parse_from_str(whole.get(..8)?, "%Y%m%d").ok()?;
    let index = found.get(1)?.as_str().parse::<i32>().ok()?;
    Some((date, index))
}

fn same_reading(pattern: &Regex, name: &str) {
    let ours = parse_entry(name)
        .map(|entry| (entry.date.year, entry.date.month, entry.date.day, entry.index));
    let theirs = read_with_pattern(pattern, name)
        .map(|(date, index)| (date.year() as u32, date.month(), date.day(), index));
    assert_eq!(ours, theirs, "on the name {name:?}");
}

#[test]
fn reading_agrees_with_pattern_and_date_format_on_plain_names() {
    let pattern = pattern();
    for name in [
        "2024051703 - create table users.sql",
        "2024051700.sql",
        "1999123199 - x.sql",
        "0000010101 - year zero.sql",
        "0001010101 - year one.sql",
        "9999123101 - far.sql",
        "2024022901 - leap.sql",
        "2000022901 - leap.sql",
        "20240517031 - three digits.sql",
    ] {
        same_reading(&pattern, name);
        assert!(parse_entry(name).is_some());
    }
}

#[test]
fn reading_agrees_with_pattern_and_date_format_on_refused_names() {
    let pattern = pattern();
    for name in [
        "",
        "x",
        "schema.sql",
        "20240517",
        "202405170",
        "2024-05-17 01.sql",
        "202405170x.sql",
        "x2024051701.sql",
        " 2024051701.sql",
        "+024051701.sql",
        "-024051701.sql",
        "2024130101.sql",
        "2024000101.sql",
        "2024010001.sql",
        "2024013201.sql",
        "2024043101.sql",
        "2024063101.sql",
        "2024093101.sql",
        "2024113101.sql",
        "2023022901.sql",
        "1900022901.sql",
        "2100022901.sql",
        "2024023001.sql",
        "20240517٠٣ - users.sql",
        "٢٠٢٤٠٥١٧٠٣ - users.sql",
    ] {
        same_reading(&pattern, name);
        assert!(parse_entry(name).is_none());
    }
}

#[test]
fn reading_agrees_with_pattern_and_date_format_on_every_day_of_some_years() {
    let pattern = pattern();
    for year in [0, 1, 4, 100, 400, 1900, 1999, 2000, 2023, 2024, 2100, 9999] {
        for month in 0..=13 {
            for day in 0..=32 {
                let name = format!("{year:04}{month:02}{day:02}07 - x.sql");
                same_reading(&pattern, &name);
            }
        }
    }
}
