use std::collections::HashMap;
use std::rc::Rc;

use haystack::h_bool::HBool;
use haystack::h_coord::HCoord;
use haystack::h_dict::HDict;
use haystack::h_list::HList;
use haystack::h_marker::HMarker;
use haystack::h_na::HNA;
use haystack::h_null::HNull;
use haystack::h_number::{HNumber, HUnit};
use haystack::h_ref::HRef;
use haystack::h_remove::HRemove;
use haystack::h_str::HStr;
use haystack::h_symbol::HSymbol;
use haystack::h_val::{HBox, HType, HVal};

#[test]
fn test_to_zinc_true() {
    let hbool = HBool(true);
    let mut buf = String::new();
    hbool.to_zinc(&mut buf).unwrap();
    assert_eq!(buf, "T");
}

#[test]
fn test_to_zinc_false() {
    let hbool = HBool(false);
    let mut buf = String::new();
    hbool.to_zinc(&mut buf).unwrap();
    assert_eq!(buf, "F");
}

#[test]
fn test_to_json_true() {
    let hbool = HBool(true);
    let mut buf = String::new();
    hbool.to_json(&mut buf).unwrap();
    assert_eq!(buf, "true");
}

#[test]
fn test_to_json_false() {
    let hbool = HBool(false);
    let mut buf = String::new();
    hbool.to_json(&mut buf).unwrap();
    assert_eq!(buf, "false");
}

#[test]
fn h_bool_test_haystack_type() {
    let hbool = HBool(true);
    let hval_type: HVal<f64> = hbool.to_hval();
    assert_eq!(hval_type.haystack_type(), HType::Bool);
}

#[test]
fn test_clone() {
    let hbool = HBool(true);
    let cloned = hbool.clone();
    assert_eq!(hbool, cloned);
}

#[test]
fn test_debug_format() {
    let hbool = HBool(true);
    assert_eq!(format!("{:?}", hbool), "HBool(true)");
}

#[test]
fn test_partial_eq() {
    let hbool1 = HBool(true);
    let hbool2 = HBool(true);
    let hbool3 = HBool(false);
    assert_eq!(hbool1, hbool2);
    assert_ne!(hbool1, hbool3);
}

#[test]
fn h_coord_test_new() {
    let coord = HCoord::new(10.5, 20.5);
    assert_eq!(coord.latitude(), 10.5);
    assert_eq!(coord.longitude(), 20.5);
}

#[test]
fn h_coord_test_haystack_type() {
    let coord = HCoord::new(10.5, 20.5);
    assert_eq!(coord.haystack_type(), HType::Coord);
}

#[test]
fn test_new_dict() {
    let dict: HDict<f64> = HDict::new();
    assert!(dict.is_empty());
}

#[test]
fn test_from_map() {
    let mut map: HashMap<String, HBox<f64>> = HashMap::new();
    let val: HBox<f64> = HNumber::new(42.0, None).to_hbox();
    map.insert("key1".to_string(), val);
    let dict = HDict::from_map(map.clone());
    assert_eq!(dict.len(), 1);
    assert_eq!(dict.get("key1").unwrap().get_number().unwrap().val(), 42.0);
    assert_eq!(dict.get("key1").unwrap().get_number().unwrap().unit(), &None);
}

#[test]
fn h_dict_test_haystack_type() {
    let dict: HDict<f64> = HDict::new();
    assert_eq!(dict.haystack_type(), HType::Dict);
}

#[test]
fn h_dict_test_eq() {
    let mut map1 = HashMap::new();
    let val1: HBox<f64> = HNumber::new(42.0, None).to_hbox();
    map1.insert("key1".to_string(), val1);
    let dict1 = HDict::from_map(map1);

    let mut map2 = HashMap::new();
    let val2: HBox<f64> = HNumber::new(42.0, None).to_hbox();
    map2.insert("key1".to_string(), val2);
    let dict2 = HDict::from_map(map2);

    assert!(!dict1._eq(&dict2.to_hval()));
}

#[test]
fn h_list_test_new() {
    let hlist = HList::<f64>::new();
    assert!(hlist.inner.is_empty());
}

#[test]
fn test_from_vec() {
    let vec = vec![HNumber::new(1f64, None).to_hbox(), HNumber::new(2.0, None).to_hbox()];
    let vec2 = vec![HNumber::new(1f64, None).to_hbox(), HNumber::new(3.0, None).to_hbox()];
    let hlist = HList::from_vec(vec.clone());
    assert_eq!(hlist.inner, vec);
    assert_ne!(hlist.inner, vec2);
}

#[test]
fn h_list_test_haystack_type() {
    let hlist: HList<f64> = HList::new();
    assert_eq!(hlist.haystack_type(), HType::List);
}

#[test]
fn test_index() {
    let vec = vec![HNumber::new(1f64, None).to_hbox(), HNumber::new(2f64, None).to_hbox()];
    let hlist = HList::from_vec(vec);
    assert_eq!(hlist.get(0).unwrap().get_number().unwrap(), &HNumber::new(1f64, None));
    assert_eq!(hlist.get(1).unwrap().get_number().unwrap(), &HNumber::new(2f64, None));
    assert_ne!(hlist.get(0).unwrap().get_number().unwrap(), &HNumber::new(2f64, None));
}

#[test]
fn h_list_test_eq() {
    let hlist1: HList<f64> = HList::new();
    let hlist2: HList<f64> = HList::new();
    let hlist3: HList<f64> =
        HList::from_vec(vec![HNumber::new(1f64, None).to_hbox(), HNumber::new(2f64, None).to_hbox()]);
    assert!(!hlist1._eq(&hlist2.clone().to_hval()));
    assert!(!hlist1._eq(&hlist2.to_hval()));
    assert!(!hlist1._eq(&hlist3.to_hval()));
}

#[test]
fn h_marker_test_haystack_type() {
    let marker = HMarker;
    let hval_marker: HVal<f64> = marker.to_hval();
    assert_eq!(hval_marker.haystack_type(), HType::Marker);
}

#[test]
fn h_marker_test_equality() {
    let marker1 = HMarker;
    let marker2 = HMarker;
    assert_eq!(marker1, marker2);
}

#[test]
fn h_na_test_haystack_type() {
    let na = HNA;
    let hval_na: HVal<f64> = na.to_hval();
    assert_eq!(hval_na.haystack_type(), HType::NA);
}

#[test]
fn h_na_test_equality() {
    let na1 = HNA;
    let na2 = HNA;
    assert_eq!(na1, na2);
}

#[test]
fn h_null_test_haystack_type() {
    let null = HNull;
    let hval_null: HVal<f64> = null.to_hval();
    assert_eq!(hval_null.haystack_type(), HType::Null);
}

#[test]
fn h_null_test_equality() {
    let null1 = HNull;
    let null2 = HNull;
    assert_eq!(null1, null2);
}

#[test]
fn h_number_test_new() {
    let unit = HUnit::new("m".to_string());
    assert_eq!(unit.as_str(), "m");
}

#[test]
fn test_display() {
    let unit = HUnit::new("kg".to_string());
    assert_eq!(unit.to_string(), "kg");
}

#[test]
fn test_new_with_unit() {
    let unit = Some(HUnit::new("m".to_string()));
    let number = HNumber::new(42.0, unit.clone());
    assert_eq!(number.val(), 42.0);
    assert_eq!(number.unit(), &unit);
}

#[test]
fn test_new_without_unit() {
    let number = HNumber::new(3.14, None);
    assert_eq!(number.val(), 3.14);
    assert!(number.unit().is_none());
}

#[test]
fn h_number_test_haystack_type() {
    let number = HNumber::new(42.0, None);
    assert_eq!(number.haystack_type(), HType::Number);
}

#[test]
fn test_href_new() {
    let href = HRef::new("id123".to_string(), Some("Building 1: \"Main\"".to_string()));
    assert_eq!(href.id, "id123");
    assert_eq!(href.dis, Some("Building 1: \"Main\"".to_string()));
    assert_ne!(href.dis, Some("Building 2: \"Main\"".to_string()));
}

#[test]
fn h_ref_test_haystack_type() {
    let href = HRef::new("id123".to_string(), None);
    let href_hval: HVal<f64> = href.to_hval();
    assert_eq!(href_hval.haystack_type(), HType::Ref);
}

#[test]
fn h_remove_test_haystack_type() {
    let remove = HRemove;
    let hval_remove: HVal<f64> = remove.to_hval();
    assert_eq!(hval_remove.haystack_type(), HType::Remove);
}

#[test]
fn test_remove_equality() {
    let remove1 = HRemove;
    let remove2 = HRemove;
    assert_eq!(remove1, remove2);
}

#[test]
fn h_str_test_new() {
    let hstr = HStr::new("hello".into());
    assert_eq!(hstr.as_str(), "hello");
}

#[test]
fn test_into_string() {
    let hstr = HStr::new("hello".into());
    let s = hstr.into_string();
    assert_eq!(s, "hello");
}

#[test]
fn test_clone_into_string() {
    let hstr = HStr::new("hello".into());
    let s = hstr.clone_into_string();
    assert_eq!(s, "hello");
}

#[test]
fn h_symbol_test_new() {
    let symbol = HSymbol::new("example".to_string());
    assert_eq!(symbol.val(), "example");
}

#[test]
fn h_symbol_test_haystack_type() {
    let symbol = HSymbol::new("example".to_string());
    let symbol_hval: HVal<f64> = symbol.to_hval();
    assert_eq!(symbol_hval.haystack_type(), HType::Symbol);
}

#[test]
fn it_works() {
    assert_eq!(2 + 2, 4);
}

// Setting an entry and reading it back, on concrete values.
#[test]
fn dict_set_then_get() {
    let mut dict: HDict<f64> = HDict::new();
    let old = dict.set("a".to_string(), HStr::new("one".into()).to_hbox());
    assert!(old.is_none());
    dict.set("b".to_string(), HMarker.to_hbox());
    let old = dict.set("a".to_string(), HStr::new("two".into()).to_hbox());
    assert_eq!(old.unwrap().get_string(), Some(&HStr::new("one".into())));
    assert_eq!(dict.len(), 2);
    assert_eq!(dict.get("a").unwrap().get_string(), Some(&HStr::new("two".into())));
    assert!(dict.get("b").unwrap().get_marker().is_some());
    assert!(dict.get("c").is_none());
    assert!(dict.has("b"));
    assert!(!dict.has("c"));
}

#[test]
fn dict_merge_keeps_order_and_overrides() {
    let mut a: HDict<f64> = HDict::new();
    a.set("x".to_string(), HBool(true).to_hbox());
    a.set("y".to_string(), HBool(true).to_hbox());
    let mut b: HDict<f64> = HDict::new();
    b.set("y".to_string(), HBool(false).to_hbox());
    b.set("z".to_string(), HNull.to_hbox());
    a.merge(b);
    let names: Vec<&str> = a.iter().iter().map(|(k, _)| k.as_str()).collect();
    assert_eq!(names, vec!["x", "y", "z"]);
    assert_eq!(a.get("y").unwrap().get_bool(), Some(&HBool(false)));
}

#[test]
fn list_push_get_first_last() {
    let mut l: HList<f64> = HList::new();
    assert!(l.first().is_none());
    l.push(HBool(true).to_hbox());
    l.push(HNull.to_hbox());
    assert_eq!(l.len(), 2);
    assert_eq!(l.first().unwrap().get_bool(), Some(&HBool(true)));
    assert!(l.last().unwrap().get_null().is_some());
    assert!(l.get(2).is_none());
    let shared: HBox<f64> = Rc::new(HVal::Marker(HMarker));
    l.push(shared);
    assert_eq!(l.len(), 3);
}

#[test]
fn type_names() {
    assert_eq!(HType::Dict.to_string(), "Dict");
    assert_eq!(HType::DateTime.to_string(), "DateTime");
}

#[test]
fn dict_through_a_map_keeps_every_value() {
    let mut d: HDict<f64> = HDict::new();
    d.set("site".into(), HMarker.to_hbox());
    d.set("dis".into(), HStr::new("Main".into()).to_hbox());
    d.set("area".into(), HNumber::new(120.5, Some(HUnit::new("m²".into()))).to_hbox());
    let back = HDict::from_map(d.clone().into_map());
    assert_eq!(back.len(), d.len());
    for (k, v) in d.iter() {
        assert_eq!(back.get(k.as_str()), Some(v));
    }
}

#[test]
fn map_to_dict_to_map_keeps_every_entry() {
    let mut m: HashMap<String, HBox<f64>> = HashMap::new();
    m.insert("a".to_string(), HNumber::new(1.0, None).to_hbox());
    m.insert("b".to_string(), HStr::new("x".into()).to_hbox());
    m.insert("c".to_string(), HMarker.to_hbox());
    let back = HDict::from_map(m.clone()).into_map();
    assert_eq!(back.len(), m.len());
    for (k, v) in m.iter() {
        assert!(Rc::ptr_eq(back.get(k).unwrap(), v));
    }
}
