use std::collections::HashMap;

use haystack::h_bool::HBool;
use haystack::h_dict::HDict;
use haystack::h_grid::{HCol, HGrid, HGridErr};
use haystack::h_marker::HMarker;
use haystack::h_str::HStr;
use haystack::h_val::{HType, HVal};
use haystack::io::write::json::JsonWriter;
use haystack::io::write::zinc::ZincWriter;

fn two_rows() -> HGrid<f64> {
    let mut r0: HDict<f64> = HDict::new();
    r0.set("a".into(), HMarker.to_hbox());
    let mut r1: HDict<f64> = HDict::new();
    r1.set("b".into(), HStr::new("x".into()).to_hbox());
    r1.set("a".into(), HBool(false).to_hbox());
    HGrid::from_dicts(vec![], &vec![r0, r1])
}

// Every entry of every row stays reachable under a column of its name.
#[test]
fn grid_keeps_every_entry() {
    let g = two_rows();
    assert_eq!(g.len(), 2);
    let names: Vec<String> = g.iter_cols().iter().map(|c| c.name.clone()).collect();
    assert_eq!(names, vec!["a".to_string(), "b".to_string()]);
    let r0 = g.get(0).unwrap();
    assert!(r0.get("a").unwrap().get_marker().is_some());
    assert!(r0.get("b").is_none());
    let r1 = g.get(1).unwrap();
    assert_eq!(r1.get("a").unwrap().get_bool(), Some(&HBool(false)));
    assert_eq!(r1.get("b").unwrap().get_string(), Some(&HStr::new("x".into())));
    assert!(g.has("b"));
    assert!(!g.has("c"));
}

#[test]
fn grid_row_access_errors() {
    let g = two_rows();
    assert_eq!(g.get(2).unwrap_err(), HGridErr::IndexErr);
    assert!(g.first().is_ok());
    assert!(g.last().unwrap().get("b").is_some());
    let e: HGrid<f64> = HGrid::Error { dis: "bad".into(), errTrace: None };
    assert_eq!(e.len(), 0);
    assert_eq!(HGridErr::IndexErr.to_string(), "Error: Index Out of Bounds");
    assert_eq!(HGridErr::NotFound.to_string(), "Error: Not Found");
}

#[test]
fn grid_zinc_text() {
    let g = two_rows();
    assert_eq!(ZincWriter::new(&g).to_string(), "ver:\"3.0\" \na, b\nM,\nF,\"x\"\n");
    let e: HGrid<f64> = HGrid::Error { dis: "bad".into(), errTrace: Some("tr".into()) };
    assert_eq!(ZincWriter::new(&e).to_string(), "ver:\"3.0\" err dis:\"bad\" errTrace:\"tr\"\nempty\n");
}

#[test]
fn grid_from_maps_with_given_columns() {
    let mut row: HashMap<String, haystack::h_val::HBox<f64>> = HashMap::new();
    row.insert("b".into(), HMarker.to_hbox());
    let g = HGrid::new(Some(vec![HCol::new("a".into(), None)]), vec![row]);
    let names: Vec<String> = g.iter_cols().iter().map(|c| c.name.clone()).collect();
    assert_eq!(names, vec!["a".to_string(), "b".to_string()]);
    assert!(g.get(0).unwrap().get("a").is_none());
    assert!(g.get(0).unwrap().get("b").is_some());
    assert_eq!(g.haystack_type(), HType::Grid);
}

#[test]
fn grid_meta_and_col_meta() {
    let mut meta: HashMap<String, haystack::h_val::HBox<f64>> = HashMap::new();
    meta.insert("dis".into(), HStr::new("Example".into()).to_hbox());
    let g = two_rows().add_meta(meta).unwrap();
    assert_eq!(g.meta().get("dis").unwrap().get_string(), Some(&HStr::new("Example".into())));
    let mut cm: HashMap<String, haystack::h_val::HBox<f64>> = HashMap::new();
    cm.insert("unit".into(), HStr::new("kW".into()).to_hbox());
    let g = g.add_col_meta("b", cm).unwrap();
    let col_b = g.iter_cols().into_iter().find(|c| c.name == "b").unwrap();
    assert!(col_b.has("unit"));
    let mut cm2: HashMap<String, haystack::h_val::HBox<f64>> = HashMap::new();
    cm2.insert("x".into(), HMarker.to_hbox());
    assert!(two_rows().add_col_meta("zzz", cm2).is_err());
}

#[test]
fn grid_json_has_rows_as_objects() {
    let g = two_rows();
    let text = JsonWriter::new(&g).to_string();
    assert!(text.starts_with("{"));
    assert!(text.contains("\"rows\""));
    assert!(text.contains("\"x\""));
}

#[test]
fn value_display_text() {
    let v: HVal<f64> = HStr::new("hi".into()).to_hval();
    assert_eq!(v.to_string(), "Str(\"hi\")");
    let m: HVal<f64> = HMarker.to_hval();
    assert_eq!(m.to_string(), "Marker(M)");
}

// An error grid as the writer writes it is taken back as an error.
#[test]
fn written_error_grid_is_an_error_answer() {
    let e: HGrid<f64> = HGrid::Error { dis: "No such point".into(), errTrace: Some("at line 1".into()) };
    let text = ZincWriter::new(&e).to_string();
    let (_, back) = haystack::io::parse::zinc::grid_err::<f64>(&text).unwrap();
    assert_eq!(back, e);
    let answer = haystack::client::ops::HaystackResponse::Raw(text);
    assert!(answer.as_result::<f64>().is_err());
}

#[test]
fn empty_grid_text_reads_back() {
    let mut meta: HDict<f64> = HDict::new();
    meta.set("dis".into(), HStr::new("Site list".into()).to_hbox());
    meta.set("hisRollup".into(), HMarker.to_hbox());
    meta.set("limit".into(), HBool(true).to_hbox());
    let g: HGrid<f64> = HGrid::Empty { meta: Some(meta) };
    let written = ZincWriter::new(&g).to_string();
    assert_eq!(written, "ver:\"3.0\" dis:\"Site list\" hisRollup limit:T\nempty\n");
    let (rest, back) = haystack::io::parse::zinc::grid::<f64>(&written).unwrap();
    assert_eq!(rest, "\nempty\n");
    assert_eq!(back, g);

    let none: HGrid<f64> = HGrid::Empty { meta: None };
    let written = ZincWriter::new(&none).to_string();
    let (_, back) = haystack::io::parse::zinc::grid::<f64>(&written).unwrap();
    assert_eq!(back, none);
}

#[test]
fn error_grid_reads_back_what_was_written() {
    let e: HGrid<f64> = HGrid::Error { dis: "No such point".into(), errTrace: Some("line 1\n\tat x".into()) };
    let text = ZincWriter::new(&e).to_string();
    let (_, back) = haystack::io::parse::zinc::grid_err::<f64>(&text).unwrap();
    match back {
        HGrid::Error { dis, errTrace } => {
            assert_eq!(dis, "No such point");
            assert_eq!(errTrace, Some("line 1\n\tat x".to_string()));
        },
        _ => panic!("Expected an error grid"),
    }
}
