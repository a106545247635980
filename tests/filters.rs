use ag_grid_rs::callbacks::{get_rows_reply, GetRowsParams, HeaderValueGetterParams, RowsReply};
use ag_grid_rs::filter::{
    combined_filter_ok, comparator_ok, date_filter_ok, filter_model_ok, filter_model_type_ok,
    CombinedFilterModel, Comparator, DateFilter, FilterModel, FilterModelType, JoinOperator,
    NumberFilter, TextFilter,
};
use ag_grid_rs::sort::{sort_item_ok, SortDirection, SortModelItem};
use ag_grid_rs::value::{JsValue, ObjectExt};

fn s(x: &str) -> JsValue {
    JsValue::Str(x.to_string())
}

fn object(pairs: Vec<(&str, JsValue)>) -> ObjectExt {
    let mut o = ObjectExt::new();
    for (k, v) in pairs {
        o.set(k, v);
    }
    o
}

#[test]
fn get_rows_params_scenario() {
    let params = object(vec![
        ("startRow", JsValue::Number(0)),
        ("endRow", JsValue::Number(100)),
        ("sortModel", JsValue::Array(vec![])),
        ("filterModel", JsValue::Object(ObjectExt::new())),
    ]);
    assert!(GetRowsParams::is_well_formed(&params));
    let p = GetRowsParams::from_object(&params);
    assert_eq!(p.start_row, 0);
    assert_eq!(p.end_row, 100);
    assert!(p.sort_model.is_empty());
    assert!(p.filter_model.is_empty());
}

#[test]
fn get_rows_params_with_sort_and_filter() {
    let sort = object(vec![("colId", s("age")), ("sort", s("desc"))]);
    let text = object(vec![("filterType", s("text")), ("type", s("contains")), ("filter", s("ph"))]);
    let filters = object(vec![("athlete", JsValue::Object(text))]);
    let params = object(vec![
        ("startRow", JsValue::Number(100)),
        ("endRow", JsValue::Number(200)),
        ("sortModel", JsValue::Array(vec![JsValue::Object(sort)])),
        ("filterModel", JsValue::Object(filters)),
    ]);
    assert!(GetRowsParams::is_well_formed(&params));
    let p = GetRowsParams::from_object(&params);
    assert_eq!(p.sort_model.len(), 1);
    assert_eq!(p.sort_model[0].col_id, "age");
    assert_eq!(p.sort_model[0].sort, SortDirection::Desc);
    assert_eq!(p.filter_model.len(), 1);
    assert_eq!(p.filter_model[0].0, "athlete");
    match &p.filter_model[0].1 {
        FilterModelType::Single(FilterModel::Text(t)) => {
            assert_eq!(t.filter, Some("ph".to_string()));
            assert_eq!(t.comparator, Some(Comparator::Contains));
            assert_eq!(t.filter_to, None);
        }
        other => panic!("unexpected filter {:?}", other),
    }
}

#[test]
fn get_rows_params_rejects_bad_shapes() {
    let missing = object(vec![("startRow", JsValue::Number(0))]);
    assert!(!GetRowsParams::is_well_formed(&missing));
    assert!(GetRowsParams::read(&missing).is_none());
    let negative = object(vec![
        ("startRow", JsValue::Number(-1)),
        ("endRow", JsValue::Number(1)),
        ("sortModel", JsValue::Array(vec![])),
        ("filterModel", JsValue::Object(ObjectExt::new())),
    ]);
    assert!(!GetRowsParams::is_well_formed(&negative));
    let bad_sort = object(vec![
        ("startRow", JsValue::Number(0)),
        ("endRow", JsValue::Number(1)),
        ("sortModel", JsValue::Array(vec![JsValue::Object(object(vec![
            ("colId", s("a")),
            ("sort", s("sideways")),
        ]))])),
        ("filterModel", JsValue::Object(ObjectExt::new())),
    ]);
    assert!(GetRowsParams::read(&bad_sort).is_none());
    let no_array = object(vec![
        ("startRow", JsValue::Number(0)),
        ("endRow", JsValue::Number(1)),
        ("sortModel", JsValue::Null),
    ]);
    assert!(!GetRowsParams::is_well_formed(&no_array));
    let bad_filter = object(vec![
        ("startRow", JsValue::Number(0)),
        ("endRow", JsValue::Number(1)),
        ("sortModel", JsValue::Array(vec![])),
        ("filterModel", JsValue::Object(object(vec![("a", JsValue::Object(object(vec![("filterType", s("set"))])))]))),
    ]);
    assert!(GetRowsParams::read(&bad_filter).is_none());
}

#[test]
fn comparators_parse_by_grid_name() {
    assert_eq!(Comparator::parse("notEqual"), Some(Comparator::NotEquals));
    assert_eq!(Comparator::parse("empty"), Some(Comparator::ChooseOne));
    assert_eq!(Comparator::parse("greaterThanOrEqual"), Some(Comparator::GreaterThanOrEqual));
    assert_eq!(Comparator::parse("Equals"), None);
    assert_eq!(JoinOperator::parse("AND"), Some(JoinOperator::And));
    assert_eq!(JoinOperator::parse("or"), None);
    assert_eq!(SortDirection::parse("asc"), Some(SortDirection::Asc));
    assert_eq!(Comparator::from_name("notBlank"), Comparator::NotBlank);
    assert_eq!(JoinOperator::from_name("OR"), JoinOperator::Or);
}

#[test]
fn text_filter_reads_its_keys() {
    let o = object(vec![("type", s("inRange")), ("filter", s("a")), ("filterTo", s("m"))]);
    assert!(comparator_ok(&o));
    let t = TextFilter::from_object(&o);
    assert_eq!(t.comparator, Some(Comparator::InRange));
    assert_eq!(t.filter, Some("a".to_string()));
    assert_eq!(t.filter_to, Some("m".to_string()));
    let none = TextFilter::from_object(&ObjectExt::new());
    assert_eq!(none.comparator, None);
    assert_eq!(none.filter, None);
}

#[test]
fn unknown_comparator_is_an_error() {
    let o = object(vec![("type", s("between"))]);
    assert!(!comparator_ok(&o));
}

#[test]
fn number_filter_reads_numbers() {
    let o = object(vec![("type", s("lessThan")), ("filter", JsValue::Number(42))]);
    let n = NumberFilter::from_object(&o);
    assert_eq!(n.filter, Some(42));
    assert_eq!(n.filter_to, None);
    assert_eq!(n.comparator, Some(Comparator::LessThan));
}

#[test]
fn date_filter_parses_dates() {
    let o = object(vec![
        ("type", s("equals")),
        ("dateFrom", s("2021-03-04 05:06:07")),
        ("dateTo", s("2022-12-31 23:59:59")),
    ]);
    assert!(date_filter_ok(&o));
    let d = DateFilter::from_object(&o);
    let from = d.filter.unwrap();
    assert_eq!((from.year, from.month, from.day), (2021, 3, 4));
    assert_eq!((from.hour, from.minute, from.second), (5, 6, 7));
    let to = d.filter_to.unwrap();
    assert_eq!((to.year, to.month, to.day, to.hour), (2022, 12, 31, 23));
}

#[test]
fn invalid_date_is_an_error() {
    let o = object(vec![("dateFrom", s("2021-13-04 05:06:07"))]);
    assert!(!date_filter_ok(&o));
    let o = object(vec![("dateTo", s("yesterday"))]);
    assert!(!date_filter_ok(&o));
}

#[test]
fn filter_model_dispatches_on_filter_type() {
    let o = object(vec![("filterType", s("number")), ("filter", JsValue::Number(3))]);
    assert!(filter_model_ok(&o));
    assert!(matches!(FilterModel::from_object(&o), FilterModel::Number(_)));
    let o = object(vec![("filterType", s("set"))]);
    assert!(!filter_model_ok(&o));
    let o = object(vec![]);
    assert!(!filter_model_ok(&o));
}

#[test]
fn combined_filter_reads_both_conditions() {
    let c1 = object(vec![("type", s("startsWith")), ("filter", s("a"))]);
    let c2 = object(vec![("type", s("endsWith")), ("filter", s("z"))]);
    let o = object(vec![
        ("filterType", s("text")),
        ("operator", s("OR")),
        ("condition1", JsValue::Object(c1)),
        ("condition2", JsValue::Object(c2)),
    ]);
    assert!(combined_filter_ok(&o));
    match CombinedFilterModel::from_object(&o) {
        CombinedFilterModel::Text(c) => {
            assert_eq!(c.operator, JoinOperator::Or);
            assert_eq!(c.condition_1.comparator, Some(Comparator::StartsWith));
            assert_eq!(c.condition_2.filter, Some("z".to_string()));
        }
        other => panic!("unexpected {:?}", other),
    }
    let v = JsValue::Object(o);
    assert!(filter_model_type_ok(&v));
    assert!(matches!(FilterModelType::from_value(&v), FilterModelType::Combined(_)));
}

#[test]
fn combined_filter_rejects_unknown_operator() {
    let o = object(vec![
        ("filterType", s("text")),
        ("operator", s("XOR")),
        ("condition1", JsValue::Object(ObjectExt::new())),
        ("condition2", JsValue::Object(ObjectExt::new())),
    ]);
    assert!(!combined_filter_ok(&o));
    let o = object(vec![("filterType", s("text")), ("operator", s("AND")), ("condition1", JsValue::Null)]);
    assert!(!combined_filter_ok(&o));
    let o = object(vec![
        ("filterType", s("set")),
        ("operator", s("AND")),
        ("condition1", JsValue::Object(ObjectExt::new())),
        ("condition2", JsValue::Object(ObjectExt::new())),
    ]);
    assert!(!combined_filter_ok(&o));
}

#[test]
fn sort_model_item_reads_col_id_and_direction() {
    let v = JsValue::Object(object(vec![("colId", s("year")), ("sort", s("asc"))]));
    assert!(sort_item_ok(&v));
    let item = SortModelItem::from_value(&v);
    assert_eq!(item.col_id, "year");
    assert_eq!(item.sort, SortDirection::Asc);
    assert!(!sort_item_ok(&JsValue::Null));
}

#[test]
fn header_params_read_location() {
    let o = object(vec![("location", s("header"))]);
    assert_eq!(HeaderValueGetterParams::from_object(&o).location, Some("header".to_string()));
    assert_eq!(HeaderValueGetterParams::from_object(&ObjectExt::new()).location, None);
}

#[test]
fn rows_reply_success_and_failure() {
    let ok: Result<(Vec<u32>, Option<u32>), String> = Ok((vec![1, 2], Some(2)));
    match get_rows_reply(&ok) {
        RowsReply::Success { rows, last_row } => {
            assert_eq!(rows, JsValue::Array(vec![JsValue::Number(1), JsValue::Number(2)]));
            assert_eq!(last_row, JsValue::Number(2));
        }
        RowsReply::Failure => panic!("expected success"),
    }
    let unknown_end: Result<(Vec<u32>, Option<u32>), String> = Ok((vec![], None));
    match get_rows_reply(&unknown_end) {
        RowsReply::Success { last_row, .. } => assert_eq!(last_row, JsValue::Null),
        RowsReply::Failure => panic!("expected success"),
    }
    let err: Result<(Vec<u32>, Option<u32>), String> = Err("offline".to_string());
    assert!(matches!(get_rows_reply(&err), RowsReply::Failure));
}
