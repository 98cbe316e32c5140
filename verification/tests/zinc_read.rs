use haystack::h_bool::HBool;
use haystack::h_coord::HCoord;
use haystack::h_date::HDate;
use haystack::h_datetime::{HDateTime, HTimezone};
use haystack::h_grid::HGrid;
use haystack::h_marker::MARKER;
use haystack::h_na::NA;
use haystack::h_null::NULL;
use haystack::h_number::{HNumber, HUnit};
use haystack::h_remove::REMOVE;
use haystack::h_str::HStr;
use haystack::h_time::HTime;
use haystack::h_uri::HUri;
use haystack::io::parse::values::ParseErr;
use haystack::io::parse::zinc::{boolean, coord, datetime, dict, grid, grid_err, grid_meta, list, literal, marker, na, null, remove, string};
use haystack::io::parse::{date, id, number, time};

#[test]
fn parse_tags() {
    let input = "dis:\"Fri 31-Jul-2020\" view:\"chart\" title:\"Line\" chartNoScroll chartLegend:\"hide\" hisStart:2020-07-31T00:00:00-04:00 New_York hisEnd:2020-08-01T00:00:00-04:00 New_York hisLimit:10000";
    let (_, d) = grid_meta::<f64>(input).unwrap();
    let v = d.get("dis").unwrap();
    assert_eq!(v.get_string(), Some(&HStr("Fri 31-Jul-2020".to_owned())));
}

#[test]
fn parse_string_02() {
    assert_eq!(string("\"He\\tllo\""), Ok(("", HStr("He\tllo".to_owned()))));
}

#[test]
fn parse_bool() {
    assert_eq!(boolean("T").unwrap(), ("", HBool(true)));
    assert_eq!(boolean("F").unwrap(), ("", HBool(false)));
}

#[test]
fn parse_null() {
    assert_eq!(null("N").unwrap(), ("", NULL));
}

#[test]
fn parse_na() {
    assert_eq!(na("NA").unwrap(), ("", NA));
}

#[test]
fn parse_marker() {
    assert_eq!(marker("M").unwrap(), ("", MARKER));
}

#[test]
fn parse_remove() {
    assert_eq!(remove("R").unwrap(), ("", REMOVE));
}

#[test]
fn parse_datetime() {
    let tz = HTimezone::named("America/Los_Angeles", -8 * 3600).unwrap();
    let (rest, dt) = datetime("2010-11-28T07:23:02.773-08:00 America/Los_Angeles").unwrap();
    assert_eq!(rest, "");
    assert_eq!(dt, HDateTime::new(2010, 11, 28, 7, 23, 2, 773, tz).unwrap());
}

#[test]
fn parse_coord() {
    assert_eq!(coord("C(1.5,-9)").unwrap(), ("", HCoord::new(1.5, -9f64)));
}

#[test]
fn coerce_na2hval() {
    let (_, v) = literal::<f64>("NA").unwrap();
    let lhs = v.get_na();
    assert_eq!(lhs, Some(&NA))
}

#[test]
fn coerce_hval() {
    assert_eq!(literal::<f64>("N").unwrap().1.get_null(), Some(&NULL));
    assert_eq!(literal::<f64>("M").unwrap().1.get_marker(), Some(&MARKER));
    assert_eq!(literal::<f64>("R").unwrap().1.get_remove(), Some(&REMOVE));
    assert_eq!(literal::<f64>("T").unwrap().1.get_bool(), Some(&HBool(true)));
    assert_eq!(literal::<f64>("F").unwrap().1.get_bool(), Some(&HBool(false)));
    assert_eq!(literal::<f64>("NA").unwrap().1.get_na(), Some(&NA));
    assert_eq!(
        literal::<f64>(r#""Hello\nSmidgen\"""#).unwrap().1.get_string(),
        Some(&HStr("Hello\nSmidgen\"".to_owned()))
    );
    assert_eq!(
        literal::<f64>("`http://www.google.com`").unwrap().1.get_uri(),
        Some(&HUri::new("http://www.google.com").unwrap())
    );
    assert_eq!(
        literal::<f64>("1.5kWh").unwrap().1.get_number(),
        Some(&HNumber::new(1.5f64, Some(HUnit::new("kWh".to_owned()))))
    );
}

#[test]
fn parse_literal_na() {
    assert_eq!(literal::<f64>("NA").unwrap().1.get_na(), Some(&NA));
}

#[test]
fn parse_literal_null() {
    assert_eq!(literal::<f64>("N").unwrap().1.get_null(), Some(&NULL));
}

#[test]
fn parse_literal_marker() {
    assert_eq!(literal::<f64>("M").unwrap().1.get_marker(), Some(&MARKER));
}

#[test]
fn parse_literal_remove() {
    assert_eq!(literal::<f64>("R").unwrap().1.get_remove(), Some(&REMOVE));
}

#[test]
fn parse_literal_bool() {
    assert_eq!(literal::<f64>("T").unwrap().1.get_bool(), Some(&HBool(true)));
    assert_eq!(literal::<f64>("F").unwrap().1.get_bool(), Some(&HBool(false)));
}

#[test]
fn parse_literal_string() {
    assert_eq!(literal::<f64>(r#""Hello\nWorld""#).unwrap().1.get_string(), Some(&HStr("Hello\nWorld".to_owned())));
}

#[test]
fn parse_literal_uri() {
    assert_eq!(
        literal::<f64>("`http://example.com`").unwrap().1.get_uri(),
        Some(&HUri::new("http://example.com").unwrap())
    );
}

#[test]
fn parse_literal_number() {
    assert_eq!(literal::<f64>("42.5").unwrap().1.get_number(), Some(&HNumber::new(42.5, None)));
    assert_eq!(
        literal::<f64>("1.5kWh").unwrap().1.get_number(),
        Some(&HNumber::new(1.5, Some(HUnit::new("kWh".to_owned()))))
    );
}

#[test]
fn parse_literal_coord() {
    assert_eq!(literal::<f64>("C(12.34,-56.78)").unwrap().1.get_coord(), Some(&HCoord::new(12.34, -56.78)));
}

#[test]
fn parse_literal_datetime() {
    let tz = HTimezone::named("America/New_York", -5 * 3600).unwrap();
    assert_eq!(
        literal::<f64>("2023-03-15T12:34:56.789-05:00 America/New_York").unwrap().1.get_datetime(),
        Some(&HDateTime::new(2023, 3, 15, 12, 34, 56, 789, tz).unwrap())
    );
}

#[test]
fn parse_literal_dict() {
    let input = r#"{key1:"value1" key2:42 key3:T}"#;
    let result = dict::<f64>(input).unwrap().1;
    assert_eq!(result.get("key1").unwrap().get_string(), Some(&HStr("value1".to_owned())));
    assert_eq!(result.get("key2").unwrap().get_number(), Some(&HNumber::new(42.0, None)));
    assert_eq!(result.get("key3").unwrap().get_bool(), Some(&HBool(true)));
}

#[test]
fn parse_literal_list() {
    let input = r#"[42,"hello" , T]"#;
    let result = list::<f64>(input).unwrap().1;
    assert_eq!(result.get(0).unwrap().get_number(), Some(&HNumber::new(42.0, None)));
    assert_eq!(result.get(1).unwrap().get_string(), Some(&HStr("hello".to_owned())));
    assert_eq!(result.get(2).unwrap().get_bool(), Some(&HBool(true)));
}

#[test]
fn parse_grid_empty() {
    let input = "ver:\"3.0\"\nempty\n";
    let empty_grid = grid::<f64>(input).unwrap().1;
    if let HGrid::Empty { meta } = empty_grid {
        assert!(meta.is_none());
    } else {
        panic!("Expected an empty grid");
    }
}

#[test]
fn parse_empty_grid_with_meta() {
    let input = "ver:\"3.0\" dis:\"Example Grid\"\nempty\n";
    let grid: HGrid<f64> = grid::<f64>(input).unwrap().1;
    match grid {
        HGrid::Empty { meta } => {
            assert_eq!(meta.unwrap().get("dis").unwrap().get_string(), Some(&HStr("Example Grid".to_owned())));
        },
        _ => panic!("Expected an empty grid with metadata"),
    }
}

#[test]
fn parse_id() {
    assert_eq!(id("asdasd1223_").unwrap(), ("", "asdasd1223_"));
}

#[test]
fn parse_date() {
    assert_eq!(date("2010-11-28").unwrap(), ("", HDate::new(2010, 11, 28).unwrap()));
}

#[test]
fn parse_time() {
    assert_eq!(time("07:23:02.773").unwrap(), ("", HTime::new(07, 23, 02, 773).unwrap()));
}

#[test]
fn parse_number_errors() {
    assert_eq!(number::<f64>("abc"), Err(ParseErr::NoMatch));
    let (rest, n) = number::<f64>("-3.5e2kW rest").unwrap();
    assert_eq!(rest, " rest");
    assert_eq!(n.val(), -350.0);
    assert_eq!(n.unit().as_ref().unwrap().as_str(), "kW");
}

#[test]
fn parse_rejects_unknown_text() {
    assert!(literal::<f64>("?").is_err());
    assert_eq!(boolean("X"), Err(ParseErr::NoMatch));
    assert!(string("\"unterminated").is_err());
}

#[test]
fn parse_error_grid() {
    let input = "ver:\"3.0\" err dis:\"Bad thing\" errTrace:\"trace\"\nempty\n";
    let (_, g) = grid_err::<f64>(input).unwrap();
    match g {
        HGrid::Error { dis, errTrace } => {
            assert_eq!(dis, "Bad thing");
            assert_eq!(errTrace, Some("trace".to_string()));
        },
        _ => panic!("Expected an error grid"),
    }
}

#[test]
fn parse_nested_list_in_dict() {
    let input = "{a:[1, M] b}";
    let (rest, d) = dict::<f64>(input).unwrap();
    assert_eq!(rest, "");
    let l = d.get("a").unwrap().get_list().unwrap();
    assert_eq!(l.len(), 2);
    assert!(l.get(1).unwrap().get_marker().is_some());
    assert!(d.get("b").unwrap().get_marker().is_some());
}
