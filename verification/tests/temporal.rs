use std::collections::HashMap;

use chrono::{Datelike, NaiveDate, NaiveTime, Timelike};
use haystack::common::{unicode_char, Txt};
use haystack::h_date::HDate;
use haystack::h_datetime::{dst_flag, HDateTime, HTimezone};
use haystack::h_grid::Grid;
use haystack::h_marker::MARKER;
use haystack::h_remove::REMOVE;
use haystack::h_time::HTime;
use haystack::h_uri::HUri;
use haystack::h_val::{HBox, HType, HVal};
use haystack::io::write::zinc::ZincWriter;
use haystack::io::parse::zinc::{datetime, literal};

#[test]
fn h_date_test_new() {
    let date = HDate::new(2023, 10, 5).unwrap();
    assert_eq!(
        NaiveDate::from_ymd_opt(date.year(), date.month(), date.day()).unwrap(),
        NaiveDate::from_ymd_opt(2023, 10, 5).unwrap()
    );
}

#[test]
fn h_date_test_haystack_type() {
    let date = HDate::new(2023, 10, 5).unwrap();
    let hval_type: HVal<f64> = date.to_hval();
    assert_eq!(hval_type.haystack_type(), HType::Date);
}

#[test]
fn h_datetime_test_new() {
    let tz = HTimezone::default();
    let datetime = HDateTime::new(2023, 10, 5, 14, 30, 45, 123456789, tz.clone()).unwrap();
    assert_eq!(datetime.year(), 2023);
    assert_eq!(datetime.month(), 10);
    assert_eq!(datetime.day(), 5);
    assert_eq!(datetime.hour(), 14);
    assert_eq!(datetime.minute(), 30);
    assert_eq!(datetime.second(), 45);
    assert_eq!(datetime.nanosecond(), 123456789);
    assert_eq!(datetime.tz(), &tz);
}

#[test]
fn test_with_fixed_offset() {
    let tz = HTimezone::default();
    let datetime = HDateTime::new(2023, 10, 5, 14, 30, 45, 0, tz.clone()).unwrap();
    assert_eq!(datetime.tz(), &tz);
}

#[test]
fn test_with_variable_offset() {
    let tz = HTimezone::default();
    let datetime = HDateTime::new(2023, 10, 5, 14, 30, 45, 0, tz.clone()).unwrap();
    assert_eq!(datetime.tz(), &tz);
}

#[test]
fn h_datetime_test_haystack_type() {
    let tz = HTimezone::default();
    let datetime = HDateTime::new(2023, 10, 5, 14, 30, 45, 123456789, tz).unwrap();
    let hval_type: HVal<f64> = datetime.to_hval();
    assert_eq!(hval_type.haystack_type(), HType::DateTime);
}

#[test]
fn h_time_test_new() {
    let time = HTime::new(12, 34, 56, 789_000_000).unwrap();
    assert_eq!(
        NaiveTime::from_hms_nano_opt(time.hour(), time.minute(), time.second(), time.nanosecond()).unwrap(),
        NaiveTime::from_hms_nano_opt(12, 34, 56, 789_000_000).unwrap()
    );
}

#[test]
fn h_time_test_haystack_type() {
    let time = HTime::new(12, 34, 56, 789_000_000).unwrap();
    let time_hval: HVal<f64> = time.to_hval();
    assert_eq!(time_hval.haystack_type(), HType::Time);
}

#[test]
fn test_new_invalid() {
    let input = "not-a-valid-url";
    let huri = HUri::new(input);
    assert!(huri.is_err());
}

#[test]
fn h_uri_test_haystack_type() {
    let input = "https://example.com";
    let huri = HUri::new(input).unwrap();
    let hval: HVal<f64> = huri.to_hval();
    assert_eq!(hval.haystack_type(), HType::Uri);
}

#[test]
fn uri_keeps_the_parsers_serialization() {
    let huri = HUri::new("https://example.com").unwrap();
    assert_eq!(huri.as_str(), "https://example.com/");
    let mut buf = String::new();
    huri.to_json(&mut buf).unwrap();
    assert_eq!(buf, "u:https://example.com/");
}

#[test]
fn print_grid() {
    let mut grid_meta: HashMap<String, HBox<f64>> = HashMap::new();
    grid_meta.insert("meta1".into(), MARKER.to_hbox());
    grid_meta.insert("meta2".into(), REMOVE.to_hbox());

    let mut col_meta: HashMap<String, HBox<f64>> = HashMap::new();
    col_meta.insert("cmeta1".into(), MARKER.to_hbox());
    col_meta.insert("cmeta2".into(), REMOVE.to_hbox());
    col_meta.insert("cmeta3".into(), MARKER.to_hbox());

    let mut row_1: HashMap<String, HBox<f64>> = HashMap::new();
    row_1.insert("col1".into(), MARKER.to_hbox());
    row_1.insert("col2".into(), MARKER.to_hbox());

    let mut row_2: HashMap<String, HBox<f64>> = HashMap::new();
    row_2.insert("col1".into(), REMOVE.to_hbox());
    row_2.insert("col3".into(), REMOVE.to_hbox());

    let mut grid = Grid::new(None, vec![row_1, row_2]);
    grid = grid.add_meta(grid_meta).unwrap();
    grid = grid.add_col_meta("col1", col_meta).unwrap();

    let buf = ZincWriter::new(&grid).to_string();
    println!("GRID\n{}", buf);
}

#[test]
fn parse_unicode_char() {
    let input = "Hello\n\r\t\"\\";
    let keep = unicode_char('"');
    let n = input.find(|c: char| !keep(c)).unwrap_or(input.len());
    let hello: Result<(&str, &str), ()> = Ok((&input[n..], &input[..n]));
    assert_eq!(hello, Ok(("\n\r\t\"\\", "Hello")));
}

#[test]
fn timezone_offsets_stay_within_a_day() {
    assert!(HTimezone::named("America/New_York", 86_400).is_none());
    assert!(HTimezone::named("America/New_York", -86_400).is_none());
    let tz = HTimezone::named("America/New_York", -5 * 3600).unwrap();
    assert_eq!(tz.offset_secs(), -5 * 3600);
    let dt = HDateTime::new(2024, 1, 2, 3, 4, 5, 0, tz).unwrap();
    assert_eq!(dt.offset().local_minus_utc(), -5 * 3600);
}

#[test]
fn datetime_with_offset_of_a_day_is_refused() {
    assert!(datetime("2020-01-01T00:00:00+24:00 America/New_York").is_err());
    let (rest, dt) = datetime("2020-01-01T00:00:00+23:59 America/New_York").unwrap();
    assert_eq!(rest, "");
    assert_eq!(dt.tz().offset_secs(), 23 * 3600 + 59 * 60);
}

#[test]
fn daylight_saving_follows_the_zone() {
    let utc = HDateTime::new(2024, 7, 1, 12, 0, 0, 0, HTimezone::default()).unwrap();
    assert!(!utc.is_dst());
    let ny = HTimezone::named("America/New_York", -4 * 3600).unwrap();
    let summer = HDateTime::new(2024, 7, 1, 12, 0, 0, 0, ny).unwrap();
    assert!(summer.is_dst());
    let winter = HDateTime::new(2024, 1, 15, 12, 0, 0, 0, ny).unwrap();
    assert!(!winter.is_dst());
    assert!(!dst_flag(Some(0)));
    assert!(dst_flag(Some(3600)));
    assert!(dst_flag(None));
}

#[test]
fn timezone_displays_its_name() {
    assert_eq!(HTimezone::default().to_string(), "UTC");
    assert_eq!(HTimezone::named("America/Los_Angeles", -8 * 3600).unwrap().to_string(), "America/Los_Angeles");
}

#[test]
fn datetime_value_keeps_its_parts() {
    let dt = HDateTime::new(2023, 10, 5, 14, 30, 45, 123456789, HTimezone::default()).unwrap();
    let v = dt.val();
    assert_eq!((v.year(), v.month(), v.day()), (2023, 10, 5));
    assert_eq!((v.hour(), v.minute(), v.second(), v.nanosecond()), (14, 30, 45, 123456789));
}

#[test]
fn date_text_reads_back() {
    for (y, m, d) in [(2023, 10, 5), (1, 1, 1), (9999, 12, 31), (2024, 2, 29)] {
        let date = HDate::new(y, m, d).unwrap();
        let mut buf = String::new();
        date.to_zinc(&mut buf).unwrap();
        buf.push_str(",next");
        let (rest, v) = literal::<f64>(&buf).unwrap();
        assert_eq!(rest, ",next");
        assert_eq!(v.get_date(), Some(&date));
    }
}

#[test]
fn time_text_reads_back() {
    for (h, m, s, n) in [(12, 34, 56, 789_000_000), (0, 0, 0, 1), (23, 59, 59, 999_999_999)] {
        let time = HTime::new(h, m, s, n).unwrap();
        let mut buf = String::new();
        time.to_zinc(&mut buf).unwrap();
        buf.push(' ');
        let (rest, v) = literal::<f64>(&buf).unwrap();
        assert_eq!(rest, " ");
        assert_eq!(v.get_time(), Some(&time));
    }
}

#[test]
fn whole_second_time_text_does_not_read_back() {
    let time = HTime::new(8, 0, 0, 0).unwrap();
    let mut buf = String::new();
    time.to_zinc(&mut buf).unwrap();
    assert_eq!(buf, "08:00:00");
    let read_as_time = match literal::<f64>(&buf) {
        Ok((_, v)) => v.get_time().is_some(),
        Err(_) => false,
    };
    assert!(!read_as_time);
}

#[test]
fn text_find_gives_first_byte_offset() {
    let t = Txt::Const("aéb-b-b");
    assert_eq!(t.find("b"), Some(3));
    assert_eq!(t.find("b-b"), Some(3));
    assert_eq!(t.find(""), Some(0));
    assert_eq!(t.find("x"), None);
    assert_eq!(Txt::Owned("ab".to_string()).find("abc"), None);
    assert_eq!(t.len(), 8);
}
