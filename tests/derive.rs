use ag_grid_rs::derive::{
    plan_field_setters, plan_from_interface, plan_to_js_value, DeriveData, DeriveError,
    DeriveInput, FieldDescriptor, Reader, SetterParam, ToJsPlan, VariantDescriptor, VariantOutput,
    WriteRule,
};
use ag_grid_rs::serialize::AltValue;
use ag_grid_rs::shape::{
    classify, is_option, type_str_parts, FieldShape, GenericArg, PathSegment, TypeExpr, TypePath,
};

fn seg(ident: &str, args: Vec<TypeExpr>) -> PathSegment {
    PathSegment { ident: ident.to_string(), args: args.into_iter().map(GenericArg::Type).collect() }
}

fn path(segments: Vec<PathSegment>) -> TypeExpr {
    TypeExpr::Path(TypePath { qself: None, leading_colon: false, segments })
}

fn ty(ident: &str, args: Vec<TypeExpr>) -> TypeExpr {
    path(vec![seg(ident, args)])
}

fn option(inner: TypeExpr) -> TypeExpr {
    ty("Option", vec![inner])
}

fn field(ident: &str, t: TypeExpr) -> FieldDescriptor {
    FieldDescriptor { ident: ident.to_string(), ty: t, rename: None, skip: false }
}

fn closure_of() -> TypeExpr {
    ty(
        "Closure",
        vec![TypeExpr::TraitObject { has_dyn: true, first_trait: Some("FnMut".to_string()) }],
    )
}

#[test]
fn type_parts_follow_first_generic_arguments() {
    let t = option(ty("OneOrMany", vec![ty("String", vec![])]));
    assert_eq!(type_str_parts(&t), vec!["Option", "OneOrMany", "String"]);
    let c = option(closure_of());
    assert_eq!(type_str_parts(&c), vec!["Option", "Closure", "FnMut"]);
    assert!(type_str_parts(&TypeExpr::Other).is_empty());
}

#[test]
fn shapes_are_classified_first_match_wins() {
    assert!(matches!(classify(&option(ty("String", vec![]))), FieldShape::PlainString));
    assert!(matches!(
        classify(&option(ty("OneOrMany", vec![ty("String", vec![])]))),
        FieldShape::OneOrManyString
    ));
    assert!(matches!(classify(&option(closure_of())), FieldShape::CallbackClosure));
    assert!(matches!(classify(&option(ty("bool", vec![]))), FieldShape::Other));
    assert!(matches!(classify(&option(ty("Vec", vec![closure_of()]))), FieldShape::Other));
    assert!(matches!(classify(&ty("String", vec![])), FieldShape::Other));
}

#[test]
fn option_paths_are_recognised() {
    assert!(is_option(&option(ty("u32", vec![]))));
    let full = path(vec![seg("std", vec![]), seg("option", vec![]), seg("Option", vec![ty("u8", vec![])])]);
    assert!(is_option(&full));
    let core = path(vec![seg("core", vec![]), seg("option", vec![]), seg("Option", vec![])]);
    assert!(is_option(&core));
    let rooted = TypeExpr::Path(TypePath {
        qself: None,
        leading_colon: true,
        segments: vec![seg("Option", vec![])],
    });
    assert!(!is_option(&rooted));
    assert!(is_option(&TypeExpr::Paren(Box::new(option(ty("u8", vec![]))))));
    assert!(!is_option(&ty("Vec", vec![ty("u8", vec![])])));
    assert!(!is_option(&TypeExpr::Other));
}

fn column_like() -> DeriveInput {
    let mut skipped = field("internal", option(ty("u32", vec![])));
    skipped.skip = true;
    DeriveInput {
        ident: "ColumnDef".to_string(),
        data: DeriveData::Struct(vec![
            field("col_id", option(ty("String", vec![]))),
            field("type_", option(ty("OneOrMany", vec![ty("String", vec![])]))),
            field("header_value_getter", option(closure_of())),
            field("width", option(ty("u32", vec![]))),
            skipped,
        ]),
        skip_serializing_none: true,
    }
}

#[test]
fn setter_plans_follow_field_shapes() {
    let plans = plan_field_setters(&column_like()).unwrap();
    assert_eq!(plans.len(), 5);
    let p0 = plans[0].as_ref().unwrap();
    assert_eq!(p0.field, "col_id");
    assert!(matches!(p0.param, SetterParam::Str));
    assert!(p0.array_setter.is_none());
    let p1 = plans[1].as_ref().unwrap();
    assert_eq!(p1.array_setter, Some("type_array".to_string()));
    let p2 = plans[2].as_ref().unwrap();
    match &p2.param {
        SetterParam::Callback { params, js_params } => {
            assert_eq!(params, "HeaderValueGetterParams");
            assert_eq!(js_params, "IHeaderValueGetterParams");
        }
        _ => panic!("expected a callback setter"),
    }
    assert!(matches!(plans[3].as_ref().unwrap().param, SetterParam::Inner));
    assert!(plans[4].is_none());
}

#[test]
fn setter_on_a_non_optional_field_is_an_error() {
    let input = DeriveInput {
        ident: "Bad".to_string(),
        data: DeriveData::Struct(vec![field("ok", option(ty("u8", vec![]))), field("count", ty("u32", vec![]))]),
        skip_serializing_none: false,
    };
    match plan_field_setters(&input) {
        Err(DeriveError::NotOptional(name)) => assert_eq!(name, "count"),
        _ => panic!("expected an error"),
    }
    let en = DeriveInput { ident: "E".to_string(), data: DeriveData::Enum(vec![]), skip_serializing_none: false };
    assert!(matches!(plan_field_setters(&en), Err(DeriveError::Unsupported)));
}

#[test]
fn serializer_plan_for_structs() {
    let mut input = column_like();
    if let DeriveData::Struct(fields) = &mut input.data {
        fields[3].rename = Some("colWidth".to_string());
        fields.push(field("price", ty("u32", vec![])));
    }
    match plan_to_js_value(&input).unwrap() {
        ToJsPlan::Struct(plans) => {
            assert_eq!(plans.len(), 6);
            let p0 = plans[0].as_ref().unwrap();
            assert_eq!(p0.key, "colId");
            assert!(matches!(p0.rule, WriteRule::WhenPresent));
            assert_eq!(plans[1].as_ref().unwrap().key, "type");
            assert_eq!(plans[3].as_ref().unwrap().key, "colWidth");
            assert!(plans[4].is_none());
            let price = plans[5].as_ref().unwrap();
            assert_eq!(price.key, "price");
            assert!(matches!(price.rule, WriteRule::Always));
        }
        ToJsPlan::Enum(_) => panic!("expected a struct plan"),
    }
    input.skip_serializing_none = false;
    match plan_to_js_value(&input).unwrap() {
        ToJsPlan::Struct(plans) => {
            assert!(matches!(plans[0].as_ref().unwrap().rule, WriteRule::PresentOrNull))
        }
        ToJsPlan::Enum(_) => panic!("expected a struct plan"),
    }
}

fn variant(ident: &str, serialize_as: Option<AltValue>) -> VariantDescriptor {
    VariantDescriptor { ident: ident.to_string(), rename: None, serialize_as, fieldless: true }
}

#[test]
fn serializer_plan_for_enums() {
    let input = DeriveInput {
        ident: "Filter".to_string(),
        data: DeriveData::Enum(vec![
            variant("AgNumberColumnFilter", None),
            variant("True", Some(AltValue::True)),
        ]),
        skip_serializing_none: false,
    };
    match plan_to_js_value(&input).unwrap() {
        ToJsPlan::Enum(arms) => {
            assert_eq!(arms.len(), 2);
            assert_eq!(arms[0].variant, "AgNumberColumnFilter");
            match &arms[0].output {
                VariantOutput::Tag(t) => assert_eq!(t, "agNumberColumnFilter"),
                VariantOutput::Literal(_) => panic!("expected a tag"),
            }
            assert!(matches!(arms[1].output, VariantOutput::Literal(AltValue::True)));
        }
        ToJsPlan::Struct(_) => panic!("expected an enum plan"),
    }
}

#[test]
fn serializer_rejects_variants_with_fields() {
    let mut v = variant("Custom", None);
    v.fieldless = false;
    let input = DeriveInput {
        ident: "Filter".to_string(),
        data: DeriveData::Enum(vec![variant("A", None), v]),
        skip_serializing_none: false,
    };
    match plan_to_js_value(&input) {
        Err(DeriveError::VariantWithFields(n)) => assert_eq!(n, "Custom"),
        _ => panic!("expected an error"),
    }
    let u = DeriveInput { ident: "U".to_string(), data: DeriveData::Unsupported, skip_serializing_none: false };
    assert!(matches!(plan_to_js_value(&u), Err(DeriveError::Unsupported)));
}

#[test]
fn interface_plan_maps_vec_elements() {
    let input = DeriveInput {
        ident: "GetRowsParams".to_string(),
        data: DeriveData::Struct(vec![
            field("start_row", ty("u32", vec![])),
            field("sort_model", ty("Vec", vec![path(vec![seg("sort", vec![]), seg("SortModelItem", vec![])])])),
        ]),
        skip_serializing_none: false,
    };
    let plan = plan_from_interface(&input).unwrap();
    assert_eq!(plan.interface, "IGetRowsParams");
    assert_eq!(plan.accessors.len(), 2);
    assert_eq!(plan.accessors[0].field, "start_row");
    assert!(matches!(plan.accessors[0].reader, Reader::Direct));
    match &plan.accessors[1].reader {
        Reader::Elements(e) => assert_eq!(e, "SortModelItem"),
        Reader::Direct => panic!("expected element conversion"),
    }
}

#[test]
fn interface_plan_rejects_unsupported_types() {
    let input = DeriveInput {
        ident: "P".to_string(),
        data: DeriveData::Struct(vec![field("refs", TypeExpr::Other)]),
        skip_serializing_none: false,
    };
    match plan_from_interface(&input) {
        Err(DeriveError::NotPathType(n)) => assert_eq!(n, "refs"),
        _ => panic!("expected an error"),
    }
    let input = DeriveInput {
        ident: "P".to_string(),
        data: DeriveData::Struct(vec![field("items", ty("Vec", vec![TypeExpr::Other]))]),
        skip_serializing_none: false,
    };
    assert!(matches!(plan_from_interface(&input), Err(DeriveError::UnsupportedElementType(_))));
}
