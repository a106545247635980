use ag_grid_rs::convert::ToJsValue;
use ag_grid_rs::row::RowData;
use ag_grid_rs::gridoptions::GridOptions;
use ag_grid_rs::types::{OneOrMany, StringMap};
use ag_grid_rs::value::{JsValue, ObjectExt};

fn s(x: &str) -> JsValue {
    JsValue::Str(x.to_string())
}

#[test]
fn set_overwrites_in_place() {
    let mut o = ObjectExt::new();
    o.set("a", JsValue::Number(1));
    o.set("b", JsValue::Number(2));
    o.set("a", JsValue::Number(3));
    assert_eq!(o.keys(), vec!["a", "b"]);
    assert_eq!(o.values(), vec![JsValue::Number(3), JsValue::Number(2)]);
    let entries = o.entries();
    assert_eq!(entries[0], ("a".to_string(), JsValue::Number(3)));
}

#[test]
fn missing_key_reads_undefined() {
    let o = ObjectExt::default();
    assert_eq!(o.get("nope"), JsValue::Undefined);
    assert!(!o.has_own_property("nope"));
    assert_eq!(o.get_string("nope"), None);
    assert_eq!(o.get_number("nope"), None);
}

#[test]
fn checked_accessors_reject_other_kinds() {
    let mut o = ObjectExt::new();
    o.set("s", s("text"));
    o.set("n", JsValue::Number(-4));
    assert_eq!(o.get_string("s"), Some("text".to_string()));
    assert_eq!(o.get_string("n"), None);
    assert_eq!(o.get_number("n"), Some(-4));
    assert_eq!(o.get_number("s"), None);
    assert_eq!(o.get_string_unchecked("s"), "text");
    assert_eq!(o.get_number_unchecked("n"), -4);
}

#[test]
fn deep_clone_copies_nested_values() {
    let mut inner = ObjectExt::new();
    inner.set("k", JsValue::Array(vec![JsValue::Bool(true), JsValue::Null]));
    let v = JsValue::Object(inner);
    assert_eq!(v.deep_clone(), v);
}

#[test]
fn primitives_convert_directly() {
    assert_eq!("hi".to_string().to_js_value(), s("hi"));
    assert_eq!("lit".to_js_value(), s("lit"));
    assert_eq!(true.to_js_value(), JsValue::Bool(true));
    assert_eq!(u64::MAX.to_js_value(), JsValue::Number(18446744073709551615));
    assert_eq!(i64::MIN.to_js_value(), JsValue::Number(-9223372036854775808));
    assert_eq!((-3i8).to_js_value(), JsValue::Number(-3));
    assert_eq!(7usize.to_js_value(), JsValue::Number(7));
    assert_eq!(().to_js_value(), JsValue::Undefined);
}

#[test]
fn option_none_is_null() {
    assert_eq!(None::<u32>.to_js_value(), JsValue::Null);
    assert_eq!(Some(5u16).to_js_value(), JsValue::Number(5));
}

#[test]
fn sequences_convert_in_order() {
    assert_eq!(vec![3u32, 1, 2].to_js_value(), JsValue::Array(vec![
        JsValue::Number(3),
        JsValue::Number(1),
        JsValue::Number(2),
    ]));
    assert_eq!(Vec::<bool>::new().to_js_value(), JsValue::Array(vec![]));
}

#[test]
fn one_or_many_shapes() {
    assert_eq!(OneOrMany::One("x".to_string()).to_js_value(), s("x"));
    assert_eq!(
        OneOrMany::Many(vec!["x".to_string(), "y".to_string()]).to_js_value(),
        JsValue::Array(vec![s("x"), s("y")])
    );
}

#[test]
fn row_data_is_an_array_holding_one_object() {
    let row = RowData::new(vec![
        ("athlete".to_string(), s("Phelps")),
        ("age".to_string(), JsValue::Number(23)),
        ("athlete".to_string(), s("Bolt")),
    ]);
    match row.to_js_value() {
        JsValue::Array(items) => {
            assert_eq!(items.len(), 1);
            match &items[0] {
                JsValue::Object(o) => {
                    assert_eq!(o.keys(), vec!["athlete", "age"]);
                    assert_eq!(o.get("athlete"), s("Bolt"));
                }
                other => panic!("not an object: {:?}", other),
            }
        }
        other => panic!("not an array: {:?}", other),
    }
}

#[test]
fn string_map_converts_key_by_key() {
    let m = StringMap {
        entries: vec![
            ("theme".to_string(), "dark".to_string()),
            ("user".to_string(), "ann".to_string()),
            ("theme".to_string(), "light".to_string()),
        ],
    };
    match m.to_js_value() {
        JsValue::Object(o) => {
            assert_eq!(o.keys(), vec!["theme", "user"]);
            assert_eq!(o.get("theme"), s("light"));
        }
        other => panic!("not an object: {:?}", other),
    }
    match GridOptions::<u32>::new().context(m).to_js_value() {
        JsValue::Object(o) => match o.get("context") {
            JsValue::Object(c) => assert_eq!(c.get("user"), s("ann")),
            other => panic!("context is not an object: {:?}", other),
        },
        other => panic!("not an object: {:?}", other),
    }
}
