use ag_grid_rs::column::{ColumnDef, Filter, LockPosition, MenuTab};
use ag_grid_rs::convert::ToJsValue;
use ag_grid_rs::gridoptions::{DataSource, GridOptions, RowModelType};
use ag_grid_rs::serialize::{
    field_key, optional, required, serialize_struct, serialize_variant, write_field, AltValue,
    FieldEntry,
};
use ag_grid_rs::sort::SortMethod;
use ag_grid_rs::types::Callback;
use ag_grid_rs::value::{JsValue, ObjectExt};

fn obj(v: JsValue) -> ObjectExt {
    match v {
        JsValue::Object(o) => o,
        other => panic!("expected an object, got {:?}", other),
    }
}

fn s(x: &str) -> JsValue {
    JsValue::Str(x.to_string())
}

#[test]
fn column_def_scenario() {
    let col = ColumnDef::new()
        .field("make")
        .col_id("col_id")
        .sortable(true)
        .filter(Filter::AgDateColumnFilter)
        .floating_filter(false);
    let o = obj(col.to_js_value());
    let mut keys = o.keys();
    keys.sort();
    assert_eq!(keys, vec!["colId", "field", "filter", "floatingFilter", "sortable"]);
    assert_eq!(o.get("field"), s("make"));
    assert_eq!(o.get("colId"), s("col_id"));
    assert_eq!(o.get("sortable"), JsValue::Bool(true));
    assert_eq!(o.get("filter"), s("agDateColumnFilter"));
    assert_eq!(o.get("floatingFilter"), JsValue::Bool(false));
}

#[test]
fn test_serialize_sort_method() {
    assert_eq!(SortMethod::Asc.to_js_value(), s("asc"));
    assert_eq!(SortMethod::Desc.to_js_value(), s("desc"));
    assert_eq!(SortMethod::Null.to_js_value(), JsValue::Null);
}

#[test]
fn test_serialize_column() {
    let col = ColumnDef::new().field("make").to_js_value();
    assert_eq!(obj(col).get_string("field"), Some("make".to_string()));
}

#[test]
fn test_serialize_grid_options() {
    let mut row = ObjectExt::new();
    row.set("make", s("Jaguar"));
    row.set("model", s("F-Type"));
    row.set("price", 100_000u32.to_js_value());
    let options = GridOptions::new().row_data(vec![row]).to_js_value();
    let o = obj(options);
    match o.get("rowData") {
        JsValue::Array(rows) => {
            assert_eq!(rows.len(), 1);
            for r in rows {
                let r = obj(r);
                assert_eq!(r.get_string("make"), Some("Jaguar".to_string()));
                assert_eq!(r.get_string("model"), Some("F-Type".to_string()));
                assert_eq!(r.get_number("price"), Some(100000));
            }
        }
        other => panic!("rowData is not an array: {:?}", other),
    }
}

#[test]
fn enum_variants_serialize_to_camel_case_tags() {
    assert_eq!(Filter::AgNumberColumnFilter.to_js_value(), s("agNumberColumnFilter"));
    assert_eq!(MenuTab::GeneralMenuTab.to_js_value(), s("generalMenuTab"));
    assert_eq!(RowModelType::ClientSide.to_js_value(), s("clientSide"));
    assert_eq!(LockPosition::Left.to_js_value(), s("left"));
}

#[test]
fn enum_literal_overrides_are_never_strings() {
    assert_eq!(Filter::True.to_js_value(), JsValue::Bool(true));
    assert_eq!(Filter::False.to_js_value(), JsValue::Bool(false));
    assert_eq!(LockPosition::True.to_js_value(), JsValue::Bool(true));
    assert_eq!(SortMethod::Null.to_js_value(), JsValue::Null);
}

#[test]
fn variant_without_override_is_camel_cased() {
    let v = serialize_variant("AgDateColumnFilter", &None, &None);
    assert_eq!(v, s("agDateColumnFilter"));
    let v = serialize_variant("FirstQuarter", &None, &None);
    assert_eq!(v, s("firstQuarter"));
    let v = serialize_variant("Full", &Some("FULL".to_string()), &None);
    assert_eq!(v, s("FULL"));
}

#[test]
fn variant_literal_overrides() {
    assert_eq!(serialize_variant("Yes", &None, &Some(AltValue::True)), JsValue::Bool(true));
    assert_eq!(serialize_variant("No", &None, &Some(AltValue::False)), JsValue::Bool(false));
    assert_eq!(serialize_variant("Null", &None, &Some(AltValue::Null)), JsValue::Null);
    assert_eq!(
        serialize_variant("Nothing", &Some("x".to_string()), &Some(AltValue::Undefined)),
        JsValue::Undefined
    );
}

#[test]
fn field_keys_are_camel_cased_unless_renamed() {
    assert_eq!(field_key("col_id", &None), "colId");
    assert_eq!(field_key("floating_filter", &None), "floatingFilter");
    assert_eq!(field_key("type_", &None), "type");
    assert_eq!(field_key("unsort_icon", &Some("unSortIcon".to_string())), "unSortIcon");
}

fn entry(key: &str, value: Option<u32>) -> FieldEntry {
    FieldEntry { key: key.to_string(), slot: optional(&value) }
}

#[test]
fn absent_field_is_null_under_null_policy() {
    let o = obj(serialize_struct(vec![entry("a", Some(1)), entry("b", None)], false));
    assert_eq!(o.keys(), vec!["a", "b"]);
    assert_eq!(o.get("b"), JsValue::Null);
    assert!(o.has_own_property("b"));
}

#[test]
fn absent_field_is_omitted_under_skip_policy() {
    let o = obj(serialize_struct(vec![entry("a", Some(1)), entry("b", None)], true));
    assert_eq!(o.keys(), vec!["a"]);
    assert!(!o.has_own_property("b"));
    assert_eq!(o.get("b"), JsValue::Undefined);
}

#[test]
fn required_field_is_always_written() {
    let fields = vec![FieldEntry { key: "n".to_string(), slot: required(&7u8) }];
    let o = obj(serialize_struct(fields, true));
    assert_eq!(o.get("n"), JsValue::Number(7));
}

#[test]
fn write_field_follows_policy() {
    let mut o = ObjectExt::new();
    write_field(&mut o, "x", optional::<bool>(&None), true);
    assert!(o.keys().is_empty());
    write_field(&mut o, "x", optional::<bool>(&None), false);
    assert_eq!(o.get("x"), JsValue::Null);
}

#[test]
fn new_structs_serialize_empty_under_skip_policy() {
    assert!(obj(ColumnDef::new().to_js_value()).keys().is_empty());
    assert!(obj(GridOptions::<u32>::new().to_js_value()).keys().is_empty());
}

#[test]
fn all_absent_under_null_policy_gives_all_keys_null() {
    let o = obj(serialize_struct(vec![entry("a", None), entry("b", None), entry("c", None)], false));
    assert_eq!(o.keys(), vec!["a", "b", "c"]);
    assert_eq!(o.values(), vec![JsValue::Null, JsValue::Null, JsValue::Null]);
}

#[test]
fn setters_commute() {
    let a = ColumnDef::new().width(100).header_name("Make").sortable(true).to_js_value();
    let b = ColumnDef::new().sortable(true).width(100).header_name("Make").to_js_value();
    assert_eq!(a, b);
    let o = obj(a);
    let mut keys = o.keys();
    keys.sort();
    assert_eq!(keys, vec!["headerName", "sortable", "width"]);
    assert_eq!(o.get("width"), JsValue::Number(100));
    assert_eq!(o.get("headerName"), s("Make"));
    assert_eq!(o.get("sortable"), JsValue::Bool(true));
}

#[test]
fn one_or_many_singular_is_bare() {
    let o = obj(ColumnDef::new().type_("numericColumn").to_js_value());
    assert_eq!(o.get("type"), s("numericColumn"));
}

#[test]
fn one_or_many_array_keeps_order() {
    let o = obj(
        ColumnDef::new()
            .header_class_array(vec!["b".to_string(), "a".to_string(), "c".to_string()])
            .to_js_value(),
    );
    assert_eq!(o.get("headerClass"), JsValue::Array(vec![s("b"), s("a"), s("c")]));
}

#[test]
fn renamed_column_key() {
    let o = obj(ColumnDef::new().unsort_icon(true).hidden(false).to_js_value());
    assert_eq!(o.get("unSortIcon"), JsValue::Bool(true));
    assert_eq!(o.get("hide"), JsValue::Bool(false));
}

#[test]
fn sort_index_inner_none_is_null() {
    let o = obj(ColumnDef::new().sort_index(None).to_js_value());
    assert_eq!(o.get("sortIndex"), JsValue::Null);
    assert!(o.has_own_property("sortIndex"));
}

#[test]
fn callback_and_datasource_serialize_to_functions() {
    let o = obj(ColumnDef::new().header_value_getter(Callback { handle: 9 }).to_js_value());
    assert_eq!(o.get("headerValueGetter"), JsValue::Function(9));
    let ds = obj(DataSource { get_rows: Callback { handle: 3 } }.to_js_value());
    assert_eq!(ds.keys(), vec!["getRows"]);
    assert_eq!(ds.get("getRows"), JsValue::Function(3));
}

#[test]
fn grid_options_nest_column_defs() {
    let cols = vec![ColumnDef::new().field("a"), ColumnDef::new().field("b")];
    let o = obj(GridOptions::<u32>::new().column_defs(cols).pagination(true).to_js_value());
    match o.get("columnDefs") {
        JsValue::Array(c) => {
            assert_eq!(c.len(), 2);
            assert_eq!(obj(c[1].deep_clone()).get_string("field"), Some("b".to_string()));
        }
        other => panic!("columnDefs is not an array: {:?}", other),
    }
    assert_eq!(o.get("pagination"), JsValue::Bool(true));
}
