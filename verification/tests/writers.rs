use std::collections::HashMap;

use haystack::h_bool::HBool;
use haystack::h_coord::HCoord;
use haystack::h_date::HDate;
use haystack::h_datetime::{HDateTime, HTimezone};
use haystack::h_dict::HDict;
use haystack::h_list::HList;
use haystack::h_marker::HMarker;
use haystack::h_na::HNA;
use haystack::h_null::HNull;
use haystack::h_number::HNumber;
use haystack::h_ref::HRef;
use haystack::h_remove::HRemove;
use haystack::h_str::HStr;
use haystack::h_symbol::HSymbol;
use haystack::h_time::HTime;
use haystack::h_uri::HUri;
use haystack::h_val::HVal;
use haystack::h_xstr::HXStr;
use haystack::io::write::json::JsonWriter;
use haystack::io::write::trio::TrioWriter;
use haystack::io::write::zinc::ZincWriter;

#[test]
fn zinc_test_null() {
    assert_eq!(ZincWriter::new(&HNull).to_string(), "N");
}

#[test]
fn zinc_test_marker() {
    assert_eq!(ZincWriter::new(&HMarker).to_string(), "M");
}

#[test]
fn zinc_test_remove() {
    assert_eq!(ZincWriter::new(&HRemove).to_string(), "R");
}

#[test]
fn test_bool_true() {
    assert_eq!(ZincWriter::new(&HBool(true)).to_string(), "T");
}

#[test]
fn test_bool_false() {
    assert_eq!(ZincWriter::new(&HBool(false)).to_string(), "F");
}

#[test]
fn zinc_test_coord() {
    let coord = HCoord::new(10.5, 20.5);
    assert_eq!(ZincWriter::new(&coord).to_string(), "C(10.5,20.5)");
}

#[test]
fn zinc_test_date() {
    let date = HDate::new(2023, 10, 5).unwrap();
    assert_eq!(ZincWriter::new(&date).to_string(), "2023-10-05");
}

#[test]
fn test_number_with_unit() {
    let unit = Some("m".to_owned().into());
    let number = HNumber::new(42.0, unit);
    assert_eq!(ZincWriter::new(&number).to_string(), "42m");
}

#[test]
fn zinc_test_symbol() {
    let symbol = HSymbol::new("example".to_string());
    let symbol_hval: HVal<f64> = symbol.to_hval();
    assert_eq!(ZincWriter::new(&symbol_hval).to_string(), "^example");
}

#[test]
fn test_number_without_unit() {
    let number = HNumber::new(3.14, None);
    assert_eq!(ZincWriter::new(&number).to_string(), "3.14");
}

#[test]
fn zinc_test_time() {
    let time = HTime::new(12, 34, 56, 789_000_000).unwrap();
    assert_eq!(ZincWriter::new(&time).to_string(), "12:34:56.789000000");
}

#[test]
fn zinc_test_datetime() {
    let tz = HTimezone::default();
    let datetime = HDateTime::new(2023, 10, 5, 14, 30, 45, 123456789, tz.clone()).unwrap();
    assert_eq!(ZincWriter::new(&datetime).to_string(), "2023-10-05T14:30:45.123456789");
}

#[test]
fn zinc_test_dict() {
    let mut map = HashMap::new();
    let val1 = HNumber::new(42.0, None);
    let val2 = HNumber::new(3.14, None);
    map.insert("key1".to_string(), val1.to_hbox());
    map.insert("key2".to_string(), val2.to_hbox());
    let dict = HDict::<f64>::from_map(map);
    let buf = ZincWriter::new(&dict).to_string();
    assert!(buf == "{key1:42 key2:3.14}" || buf == "{key2:3.14 key1:42}");
}

#[test]
fn zinc_test_na() {
    assert_eq!(ZincWriter::new(&HNA).to_string(), "NA");
}

#[test]
fn zinc_test_str() {
    let hstr = HStr::new("hello".into());
    assert_eq!(ZincWriter::new(&hstr).to_string(), "\"hello\"");
}

#[test]
fn test_str_escaped_chars() {
    let hstr = HStr::new("\x08 \x0C \n \r \t \" \\ $ \u{263A} ☺".into());
    assert_eq!(ZincWriter::new(&hstr).to_string(), "\"\\b \\f \\n \\r \\t \\\" \\\\ \\$ \u{263A} ☺\"");
}

#[test]
fn zinc_test_uri() {
    let huri = HUri::new("https://example.com").unwrap();
    assert_eq!(ZincWriter::new(&huri).to_string(), "`https://example.com/`");
}

#[test]
fn zinc_test_href() {
    let href = HRef::new("id123".to_string(), Some("display".to_string()));
    assert_eq!(ZincWriter::new(&href).to_string(), "@id123 display");
}

#[test]
fn test_href_no_dis() {
    let href = HRef::new("id123".to_string(), None);
    assert_eq!(ZincWriter::new(&href).to_string(), "@id123");
}

#[test]
fn zinc_test_xstr() {
    let xhstr = HXStr::new("custom".to_string(), "hello".into());
    assert_eq!(ZincWriter::new(&xhstr).to_string(), "custom(\"hello\")");
}

#[test]
fn zinc_test_list() {
    let mut dict_element = HDict::new();
    dict_element.set("key".into(), HNumber::new(1f64, None).to_hbox());
    let vec = vec![
        HNumber::new(1f64, None).to_hbox(),
        HNumber::new(2f64, Some("m".to_owned().into())).to_hbox(),
        HStr::new("three$".into()).to_hbox(),
        HUri::new("http://example.com").unwrap().to_hbox(),
        dict_element.to_hbox(),
    ];
    let hlist = HList::from_vec(vec);
    assert_eq!(ZincWriter::new(&hlist).to_string(), "[1, 2m, \"three\\$\", `http://example.com/`, {key:1}]");
}

#[test]
fn trio_test_null() {
    assert_eq!(TrioWriter::new(&HNull).to_string(), "N");
}

#[test]
fn trio_test_remove() {
    assert_eq!(TrioWriter::new(&HRemove).to_string(), "R");
}

#[test]
fn trio_test_coord() {
    let coord = HCoord::new(10.5, 20.5);
    assert_eq!(TrioWriter::new(&coord).to_string(), "C(10.5,20.5)");
}

#[test]
fn trio_test_date() {
    let date = HDate::new(2023, 10, 5).unwrap();
    assert_eq!(TrioWriter::new(&date).to_string(), "2023-10-05");
}

#[test]
fn test_sumbol() {
    let symbol = HSymbol::new("example".to_string());
    let symbol_hval: HVal<f64> = symbol.to_hval();
    assert_eq!(TrioWriter::new(&symbol_hval).to_string(), "^example");
}

#[test]
fn trio_test_number() {
    let unit = Some("kg".to_owned().into());
    let number = HNumber::new(100.0, unit);
    assert_eq!(TrioWriter::new(&number).to_string(), "100kg");
}

#[test]
fn trio_test_datetime() {
    let tz = HTimezone::default();
    let datetime = HDateTime::new(2023, 10, 5, 14, 30, 45, 123456789, tz.clone()).unwrap();
    assert_eq!(TrioWriter::new(&datetime).to_string(), "2023-10-05T14:30:45.123456789");
}

#[test]
fn trio_test_time() {
    let time = HTime::new(12, 34, 56, 789_000_000).unwrap();
    assert_eq!(TrioWriter::new(&time).to_string(), "12:34:56.789000000");
}

#[test]
fn trio_test_dict() {
    let mut map = HashMap::new();
    let val1 = HNumber::new(42.0, None);
    map.insert("key1".to_string(), val1.to_hbox());
    let dict = HDict::<f64>::from_map(map);
    let _buf = TrioWriter::new(&dict).to_string();
}

#[test]
fn trio_test_marker() {
    assert_eq!(TrioWriter::new(&HMarker).to_string(), "M");
}

#[test]
fn trio_test_na() {
    assert_eq!(TrioWriter::new(&HNA).to_string(), "NA");
}

#[test]
fn trio_test_str() {
    let hstr = HStr::new("hello".into());
    assert_eq!(TrioWriter::new(&hstr).to_string(), "\"hello\"");
}

#[test]
fn trio_test_uri() {
    let huri = HUri::new("https://example.com").unwrap();
    assert_eq!(TrioWriter::new(&huri).to_string(), "`https://example.com/`");
}

#[test]
fn trio_test_href() {
    let href = HRef::new("id123".to_string(), Some("display".to_string()));
    let href_hval: HVal<f64> = href.to_hval();
    assert_eq!(TrioWriter::new(&href_hval).to_string(), "@id123 display");
}

#[test]
fn trio_test_xstr() {
    let xhstr = HXStr::new("custom".to_string(), "hello".into());
    assert_eq!(TrioWriter::new(&xhstr).to_string(), "custom(\"hello\")");
}

#[test]
fn trio_test_list() {
    let vec = vec![HNumber::new(1f64, None).to_hbox(), HNumber::new(2f64, None).to_hbox()];
    let hlist = HList::from_vec(vec);
    assert_eq!(TrioWriter::new(&hlist).to_string(), "[1, 2]");
}

#[test]
fn json_test_date() {
    let date = HDate::new(2023, 10, 5).unwrap();
    assert_eq!(JsonWriter::new(&date).to_string(), "d:2023-10-05");
    let date = HDate::new(2023, 12, 25).unwrap();
    assert_eq!(JsonWriter::new(&date).to_string(), "d:2023-12-25");
}

#[test]
fn json_test_datetime() {
    let tz = HTimezone::default();
    let datetime = HDateTime::new(2023, 10, 5, 14, 30, 45, 123456789, tz.clone()).unwrap();
    assert_eq!(JsonWriter::new(&datetime).to_string(), "t:2023-10-05T14:30:45.123456789");
}

#[test]
fn json_test_null() {
    assert_eq!(JsonWriter::new(&HNull).to_string(), "null");
}

#[test]
fn json_test_marker() {
    assert_eq!(JsonWriter::new(&HMarker).to_string(), "m:");
}

#[test]
fn json_test_remove() {
    assert_eq!(JsonWriter::new(&HRemove).to_string(), "-:");
}

#[test]
fn json_test_na() {
    assert_eq!(JsonWriter::new(&HNA).to_string(), "z:");
}

#[test]
fn test_bool() {
    assert_eq!(JsonWriter::new(&HBool(true)).to_string(), "true");
    assert_eq!(JsonWriter::new(&HBool(false)).to_string(), "false");
}

#[test]
fn json_test_coord() {
    let coord = HCoord::new(10.5, 20.5);
    assert_eq!(JsonWriter::new(&coord).to_string(), "c:10.5,20.5");
}

#[test]
fn json_test_str() {
    assert_eq!(JsonWriter::new(&HStr::new("hello world".into())).to_string(), "hello world");
    let hstr = HStr::new("hello".into());
    assert_eq!(JsonWriter::new(&hstr).to_string(), "hello");
    let hstr_with_colon = HStr::new("key:value".into());
    assert_eq!(JsonWriter::new(&hstr_with_colon).to_string(), "s:key:value");
}

#[test]
fn json_test_number() {
    assert_eq!(JsonWriter::new(&HNumber::new(42.0, None)).to_string(), "n:42");
    assert_eq!(JsonWriter::new(&HNumber::new(42.2, Some("°F".to_owned().into()))).to_string(), "n:42.2 °F");
}

#[test]
fn test_ref() {
    assert_eq!(JsonWriter::new(&HRef::new("site1".into(), None)).to_string(), "r:site1");
    assert_eq!(JsonWriter::new(&HRef::new("site1".into(), Some("Site 1".into()))).to_string(), "r:site1 Site 1");
}

#[test]
fn json_test_symbol() {
    let symbol = HSymbol::new("example".to_string());
    let symbol_hval: HVal<f64> = symbol.to_hval();
    assert_eq!(JsonWriter::new(&symbol_hval).to_string(), "y:example");
}

#[test]
fn json_test_uri() {
    assert_eq!(JsonWriter::new(&HUri::new("http://example.com").unwrap()).to_string(), "u:http://example.com/");
}

#[test]
fn json_test_time() {
    assert_eq!(JsonWriter::new(&HTime::new(14, 30, 0, 0).unwrap()).to_string(), "h:14:30:00");
    let time = HTime::new(12, 34, 56, 789_000_000).unwrap();
    assert_eq!(JsonWriter::new(&time).to_string(), "h:12:34:56.789000000");
}

#[test]
fn json_test_xstr() {
    let xhstr = HXStr::new("custom".to_string(), "hello".into());
    assert_eq!(JsonWriter::new(&xhstr).to_string(), "x:custom:hello");
}

#[test]
fn json_test_dict() {
    let mut dict = HDict::<f64>::new();
    dict.set("id".into(), HRef::new("site1".into(), None).to_hbox());
    dict.set("name".into(), HStr::new("Site 1".into()).to_hbox());
    let buf = JsonWriter::new(&dict).to_string();
    assert!(buf.starts_with("{"));
    assert!(buf.ends_with("}"));
    assert!(buf.contains("\"id\""));
    assert!(buf.contains("\"name\""));
    let dict: HDict<f64> = HDict::new();
    assert_eq!(JsonWriter::new(&dict).to_string(), "{}");
}

#[test]
fn json_test_list() {
    let mut list = HList::new();
    list.push(HStr::new("item1".into()).to_hbox());
    list.push(HNumber::new(42.0, None).to_hbox());
    let buf = JsonWriter::<HList<f64>>::new(&list).to_string();
    assert_eq!(buf, "[\"item1\",\"n:42\"]");
    assert!(buf.starts_with("["));
    assert!(buf.ends_with("]"));
}

// A string whose Zinc literal is read back gives the same string.
#[test]
fn zinc_string_reads_back() {
    let s = "a\"b\\c$d\te\nf";
    let written = ZincWriter::new(&HStr::new(s.into())).to_string();
    let (rest, read) = haystack::io::parse::zinc::string(&(written + " tail")).map(|(r, v)| (r.to_string(), v)).unwrap();
    assert_eq!(read.as_str(), s);
    assert_eq!(rest, " tail");
}

#[test]
fn zinc_ref_without_dis_reads_back() {
    let written = ZincWriter::new(&HRef::new("p:demo:r:1".into(), None)).to_string();
    let (rest, v) = haystack::io::parse::zinc::literal::<f64>(&written).unwrap();
    assert_eq!(rest, "");
    assert_eq!(v.get_ref().unwrap().id, "p:demo:r:1");
    assert!(v.get_ref().unwrap().dis.is_none());
}

#[test]
fn zinc_dict_reads_back() {
    let mut d: HDict<f64> = HDict::new();
    d.set("a".into(), HBool(true).to_hbox());
    d.set("b_2".into(), HStr::new("x y".into()).to_hbox());
    d.set("c".into(), HNA.to_hbox());
    let written = ZincWriter::new(&d).to_string();
    assert_eq!(written, "{a:T b_2:\"x y\" c:NA}");
    let (rest, back) = haystack::io::parse::zinc::dict::<f64>(&written).unwrap();
    assert_eq!(rest, "");
    assert_eq!(back, d);
}

#[test]
fn zinc_dict_of_dates_and_times_reads_back() {
    let mut d: HDict<f64> = HDict::new();
    d.set("day".into(), HDate::new(2024, 2, 29).unwrap().to_hbox());
    d.set("at".into(), HTime::new(7, 5, 0, 1).unwrap().to_hbox());
    let written = ZincWriter::new(&d).to_string();
    assert_eq!(written, "{day:2024-02-29 at:07:05:00.000000001}");
    let (rest, back) = haystack::io::parse::zinc::dict::<f64>(&written).unwrap();
    assert_eq!(rest, "");
    assert_eq!(back, d);
}

#[test]
fn zinc_list_reads_back() {
    let l: HList<f64> = HList::from_vec(vec![
        HBool(false).to_hbox(),
        HStr::new("q\"uote".into()).to_hbox(),
        HNA.to_hbox(),
        HNull.to_hbox(),
        HRef::new("site-1".into(), None).to_hbox(),
    ]);
    let written = ZincWriter::new(&l).to_string();
    let (rest, back) = haystack::io::parse::zinc::list::<f64>(&written).unwrap();
    assert_eq!(rest, "");
    assert_eq!(back, l);
}

#[test]
fn zinc_list_of_dates_and_times_reads_back() {
    let l: HList<f64> = HList::from_vec(vec![
        HDate::new(2023, 10, 5).unwrap().to_hbox(),
        HTime::new(12, 34, 56, 789_000_000).unwrap().to_hbox(),
        HDate::new(999, 1, 31).unwrap().to_hbox(),
    ]);
    let written = ZincWriter::new(&l).to_string();
    assert_eq!(written, "[2023-10-05, 12:34:56.789000000, 0999-01-31]");
    let (rest, back) = haystack::io::parse::zinc::list::<f64>(&written).unwrap();
    assert_eq!(rest, "");
    assert_eq!(back, l);
}

// A marker entry is written as its bare name with nothing before the next
// entry, so the two names run together when read back.
#[test]
fn zinc_dict_marker_runs_into_next_name() {
    let mut d: HDict<f64> = HDict::new();
    d.set("a".into(), HMarker.to_hbox());
    d.set("b".into(), HBool(true).to_hbox());
    assert_eq!(ZincWriter::new(&d).to_string(), "{ab:T}");
}
