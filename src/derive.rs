//! The decisions of the three derivations, from a description of the
//! annotated item to a plan of the code to emit: fluent setters, a serializer,
//! and a conversion from an external interface handle.
use vstd::prelude::*;
use crate::casing::{pascal_of, to_pascal_case};
use crate::serialize::{field_key, key_of, opt_view, AltValue};
use crate::shape::{
    classify, inner_of, inner_type, is_option, is_option_type, shape_of, FieldShape, GenericArg,
    TypeExpr,
};
use crate::text::{concat, str_eq, trim_end_underscores, trim_trailing_underscores};

verus! {

/// A named field of the annotated struct.
#[derive(Debug)]
pub struct FieldDescriptor {
    pub ident: String,
    pub ty: TypeExpr,
    /// The serialized key, when it overrides the camel-cased identifier.
    pub rename: Option<String>,
    /// A skipped field gets neither a setter nor a serialized entry.
    pub skip: bool,
}

/// A variant of the annotated enum.
#[derive(Debug)]
pub struct VariantDescriptor {
    pub ident: String,
    pub rename: Option<String>,
    /// A literal that the variant serializes to instead of its tag.
    pub serialize_as: Option<AltValue>,
    /// Whether the variant has no fields.
    pub fieldless: bool,
}

/// The body of the annotated item.
#[derive(Debug)]
pub enum DeriveData {
    Struct(Vec<FieldDescriptor>),
    Enum(Vec<VariantDescriptor>),
    /// A union, or a struct without named fields.
    Unsupported,
}

/// The annotated item.
#[derive(Debug)]
pub struct DeriveInput {
    pub ident: String,
    pub data: DeriveData,
    /// Leave absent optional fields out of the serialized object, instead of
    /// writing `Null`.
    pub skip_serializing_none: bool,
}

/// Why a derivation cannot be applied; each is a compile-time diagnostic.
#[derive(Debug)]
pub enum DeriveError {
    /// The item is not a struct with named fields (nor, for the serializer,
    /// an enum).
    Unsupported,
    /// The named variant carries fields.
    VariantWithFields(String),
    /// The named field's type has no inner type to set: it is not `Option<T>`.
    NotOptional(String),
    /// The named field's type is not a path type.
    NotPathType(String),
    /// The named `Vec` field's element type is not a path type.
    UnsupportedElementType(String),
}

// ---------------------------------------------------------------------------
// Setters

/// What a generated setter takes.
#[derive(Debug)]
pub enum SetterParam {
    /// Any string-like value, stored as an owned string.
    Str,
    /// A user function over the host-visible parameter struct `params`; the
    /// runtime calls it with the external handle type `js_params`.
    Callback { params: String, js_params: String },
    /// The inner type of the option, stored as it is.
    Inner,
}

/// The setters generated for one field.
#[derive(Debug)]
pub struct SetterPlan {
    /// The field, and the name of its setter.
    pub field: String,
    pub param: SetterParam,
    /// The name of the extra setter that takes many strings, if any.
    pub array_setter: Option<String>,
}

/// A field can get its setter: every shape but the fallback needs no inner
/// type; the fallback takes the type inside the option.
pub open spec fn setter_ok(f: FieldDescriptor) -> bool {
    f.skip || !(shape_of(f.ty) is Other) || inner_of(f.ty) is Some
}

/// The name of the many-strings setter of a field.
pub open spec fn array_setter_name(ident: Seq<char>) -> Seq<char> {
    trim_trailing_underscores(ident) + "_array"@
}

pub open spec fn names_array_setter(a: Option<String>, ident: Seq<char>) -> bool {
    match a {
        Some(n) => n@ == array_setter_name(ident),
        None => false,
    }
}

pub open spec fn is_callback_param(p: SetterParam, ident: Seq<char>) -> bool {
    match p {
        SetterParam::Callback { params, js_params } => params@ == pascal_of(ident) + "Params"@
            && js_params@ == "I"@ + pascal_of(ident) + "Params"@,
        _ => false,
    }
}

pub open spec fn is_not_optional_error(e: DeriveError, ident: Seq<char>) -> bool {
    match e {
        DeriveError::NotOptional(n) => n@ == ident,
        _ => false,
    }
}

pub open spec fn is_variant_error(e: DeriveError, ident: Seq<char>) -> bool {
    match e {
        DeriveError::VariantWithFields(n) => n@ == ident,
        _ => false,
    }
}

/// `plan` is the setter plan of field `f`.
pub open spec fn setter_plan_of(plan: SetterPlan, f: FieldDescriptor) -> bool {
    &&& plan.field@ == f.ident@
    &&& match shape_of(f.ty) {
        FieldShape::PlainString => plan.param is Str && plan.array_setter is None,
        FieldShape::OneOrManyString => plan.param is Str && names_array_setter(
            plan.array_setter,
            f.ident@,
        ),
        FieldShape::CallbackClosure => plan.array_setter is None && is_callback_param(
            plan.param,
            f.ident@,
        ),
        FieldShape::Other => plan.param is Inner && plan.array_setter is None,
    }
}

/// Plan the setters of one field: none when it is skipped.
pub fn plan_setter(f: &FieldDescriptor) -> (r: Result<Option<SetterPlan>, DeriveError>)
    ensures
        match r {
            Ok(None) => f.skip,
            Ok(Some(p)) => !f.skip && setter_ok(*f) && setter_plan_of(p, *f),
            Err(e) => !setter_ok(*f) && is_not_optional_error(e, f.ident@),
        },
{
    if f.skip {
        return Ok(None);
    }
    let field = f.ident.clone();
    match classify(&f.ty) {
        FieldShape::PlainString => Ok(Some(SetterPlan { field, param: SetterParam::Str, array_setter: None })),
        FieldShape::OneOrManyString => {
            let base = trim_end_underscores(f.ident.as_str());
            let name = concat(base.as_str(), "_array");
            Ok(Some(SetterPlan { field, param: SetterParam::Str, array_setter: Some(name) }))
        },
        FieldShape::CallbackClosure => {
            let pascal = to_pascal_case(f.ident.as_str());
            let params = concat(pascal.as_str(), "Params");
            let prefixed = concat("I", pascal.as_str());
            let js_params = concat(prefixed.as_str(), "Params");
            Ok(
                Some(
                    SetterPlan {
                        field,
                        param: SetterParam::Callback { params, js_params },
                        array_setter: None,
                    },
                ),
            )
        },
        FieldShape::Other => {
            if inner_type(&f.ty).is_some() {
                Ok(Some(SetterPlan { field, param: SetterParam::Inner, array_setter: None }))
            } else {
                Err(DeriveError::NotOptional(field))
            }
        },
    }
}

/// Plan the setters of a struct: one entry per field, in order, `None` for a
/// skipped field. The constructor sets every field absent.
pub fn plan_field_setters(input: &DeriveInput) -> (r: Result<Vec<Option<SetterPlan>>, DeriveError>)
    ensures
        match input.data {
            DeriveData::Struct(fields) => match r {
                Ok(plans) => (forall|j: int| 0 <= j < fields.len() ==> setter_ok(#[trigger] fields[j]))
                    && plans.len() == fields.len() && forall|j: int|
                    0 <= j < fields.len() ==> match #[trigger] plans[j] {
                        None => fields[j].skip,
                        Some(p) => !fields[j].skip && setter_plan_of(p, fields[j]),
                    },
                Err(e) => exists|j: int|
                    0 <= j < fields.len() && !setter_ok(#[trigger] fields[j]) && (forall|i: int|
                        0 <= i < j ==> setter_ok(#[trigger] fields[i])) && is_not_optional_error(
                        e,
                        fields[j].ident@,
                    ),
            },
            _ => r matches Err(DeriveError::Unsupported),
        },
{
    let fields = match &input.data {
        DeriveData::Struct(fields) => fields,
        _ => return Err(DeriveError::Unsupported),
    };
    let mut plans: Vec<Option<SetterPlan>> = Vec::new();
    let mut i: usize = 0;
    while i < fields.len()
        invariant
            input.data == DeriveData::Struct(*fields),
            i <= fields.len(),
            plans.len() == i,
            forall|j: int| 0 <= j < i ==> setter_ok(#[trigger] fields[j]),
            forall|j: int|
                0 <= j < i ==> match #[trigger] plans[j] {
                    None => fields[j].skip,
                    Some(p) => !fields[j].skip && setter_plan_of(p, fields[j]),
                },
        decreases fields.len() - i,
    {
        match plan_setter(&fields[i]) {
            Ok(p) => plans.push(p),
            Err(e) => {
                assert(!setter_ok(fields[i as int]));
                return Err(e);
            },
        }
        i = i + 1;
    }
    Ok(plans)
}

// ---------------------------------------------------------------------------
// Serializer

/// When a field is written into the serialized object.
#[derive(Debug)]
pub enum WriteRule {
    /// The field is not optional: always.
    Always,
    /// Only when present (the skip policy).
    WhenPresent,
    /// Its value when present, `Null` when absent (the null policy).
    PresentOrNull,
}

/// How one field is serialized.
#[derive(Debug)]
pub struct FieldWritePlan {
    pub field: String,
    pub key: String,
    pub rule: WriteRule,
}

/// What a variant serializes to.
#[derive(Debug)]
pub enum VariantOutput {
    /// A string tag.
    Tag(String),
    /// A literal value instead of a tag.
    Literal(AltValue),
}

/// One arm of the generated match.
#[derive(Debug)]
pub struct VariantArm {
    pub variant: String,
    pub output: VariantOutput,
}

/// The serializer of a struct, field by field (`None` for a skipped field), or
/// of an enum, variant by variant.
#[derive(Debug)]
pub enum ToJsPlan {
    Struct(Vec<Option<FieldWritePlan>>),
    Enum(Vec<VariantArm>),
}

pub open spec fn rule_of(ty: TypeExpr, skip_none: bool) -> WriteRule {
    if !is_option_type(ty) {
        WriteRule::Always
    } else if skip_none {
        WriteRule::WhenPresent
    } else {
        WriteRule::PresentOrNull
    }
}

pub open spec fn write_plan_of(p: FieldWritePlan, f: FieldDescriptor, skip_none: bool) -> bool {
    &&& p.field@ == f.ident@
    &&& p.key@ == key_of(f.ident@, opt_view(f.rename))
    &&& p.rule == rule_of(f.ty, skip_none)
}

pub open spec fn arm_of(a: VariantArm, v: VariantDescriptor) -> bool {
    &&& a.variant@ == v.ident@
    &&& match v.serialize_as {
        Some(lit) => a.output == VariantOutput::Literal(lit),
        None => match a.output {
            VariantOutput::Tag(t) => t@ == key_of(v.ident@, opt_view(v.rename)),
            VariantOutput::Literal(_) => false,
        },
    }
}

/// Plan how one field is written.
pub fn plan_field_write(f: &FieldDescriptor, skip_serializing_none: bool) -> (r: FieldWritePlan)
    ensures
        write_plan_of(r, *f, skip_serializing_none),
{
    let key = field_key(f.ident.as_str(), &f.rename);
    let rule = if !is_option(&f.ty) {
        WriteRule::Always
    } else if skip_serializing_none {
        WriteRule::WhenPresent
    } else {
        WriteRule::PresentOrNull
    };
    FieldWritePlan { field: f.ident.clone(), key, rule }
}

/// Plan one arm of an enum's serializer.
pub fn plan_variant(v: &VariantDescriptor) -> (r: Result<VariantArm, DeriveError>)
    ensures
        match r {
            Ok(a) => v.fieldless && arm_of(a, *v),
            Err(e) => !v.fieldless && is_variant_error(e, v.ident@),
        },
{
    if !v.fieldless {
        return Err(DeriveError::VariantWithFields(v.ident.clone()));
    }
    let output = match v.serialize_as {
        Some(lit) => VariantOutput::Literal(lit),
        None => VariantOutput::Tag(field_key(v.ident.as_str(), &v.rename)),
    };
    Ok(VariantArm { variant: v.ident.clone(), output })
}

/// Plan the serializer of a struct with named fields or of a fieldless enum.
pub fn plan_to_js_value(input: &DeriveInput) -> (r: Result<ToJsPlan, DeriveError>)
    ensures
        match input.data {
            DeriveData::Struct(fields) => r matches Ok(ToJsPlan::Struct(plans)) && plans.len()
                == fields.len() && forall|j: int|
                0 <= j < fields.len() ==> match #[trigger] plans[j] {
                    None => fields[j].skip,
                    Some(p) => !fields[j].skip && write_plan_of(
                        p,
                        fields[j],
                        input.skip_serializing_none,
                    ),
                },
            DeriveData::Enum(variants) => match r {
                Ok(ToJsPlan::Enum(arms)) => arms.len() == variants.len() && forall|j: int|
                    0 <= j < variants.len() ==> (#[trigger] variants[j]).fieldless && arm_of(
                        arms[j],
                        variants[j],
                    ),
                Ok(ToJsPlan::Struct(_)) => false,
                Err(e) => exists|j: int|
                    0 <= j < variants.len() && !(#[trigger] variants[j]).fieldless && (forall|i: int|
                        0 <= i < j ==> (#[trigger] variants[i]).fieldless)
                        && is_variant_error(e, variants[j].ident@),
            },
            DeriveData::Unsupported => r matches Err(DeriveError::Unsupported),
        },
{
    match &input.data {
        DeriveData::Struct(fields) => {
            let mut plans: Vec<Option<FieldWritePlan>> = Vec::new();
            let mut i: usize = 0;
            while i < fields.len()
                invariant
                    input.data == DeriveData::Struct(*fields),
                    i <= fields.len(),
                    plans.len() == i,
                    forall|j: int|
                        0 <= j < i ==> match #[trigger] plans[j] {
                            None => fields[j].skip,
                            Some(p) => !fields[j].skip && write_plan_of(
                                p,
                                fields[j],
                                input.skip_serializing_none,
                            ),
                        },
                decreases fields.len() - i,
            {
                if fields[i].skip {
                    plans.push(None);
                } else {
                    plans.push(Some(plan_field_write(&fields[i], input.skip_serializing_none)));
                }
                i = i + 1;
            }
            Ok(ToJsPlan::Struct(plans))
        },
        DeriveData::Enum(variants) => {
            let mut arms: Vec<VariantArm> = Vec::new();
            let mut i: usize = 0;
            while i < variants.len()
                invariant
                    input.data == DeriveData::Enum(*variants),
                    i <= variants.len(),
                    arms.len() == i,
                    forall|j: int|
                        0 <= j < i ==> (#[trigger] variants[j]).fieldless && arm_of(arms[j], variants[j]),
                decreases variants.len() - i,
            {
                match plan_variant(&variants[i]) {
                    Ok(a) => arms.push(a),
                    Err(e) => {
                        assert(!variants[i as int].fieldless);
                        return Err(e);
                    },
                }
                i = i + 1;
            }
            Ok(ToJsPlan::Enum(arms))
        },
        DeriveData::Unsupported => Err(DeriveError::Unsupported),
    }
}

// ---------------------------------------------------------------------------
// Conversion from an external interface handle

/// How a field is read off the external handle's same-named accessor.
#[derive(Debug)]
pub enum Reader {
    /// The accessor's value as it is.
    Direct,
    /// Each element of the accessor's sequence, converted by the named type's
    /// own conversion.
    Elements(String),
}

/// How one field is read.
#[derive(Debug)]
pub struct AccessorPlan {
    pub field: String,
    pub reader: Reader,
}

/// The conversion of a struct from the external handle type `interface`.
#[derive(Debug)]
pub struct InterfacePlan {
    pub interface: String,
    pub accessors: Vec<AccessorPlan>,
}

/// The model of a field's reader, or why there is none.
pub enum ReaderSpec {
    Direct,
    Elements(Seq<char>),
    NotPath,
    BadElement,
}

pub open spec fn element_reader(arg: GenericArg) -> ReaderSpec {
    match arg {
        GenericArg::Type(TypeExpr::Path(q)) => if q.segments.len() > 0 {
            ReaderSpec::Elements(q.segments[q.segments.len() - 1].ident@)
        } else {
            ReaderSpec::BadElement
        },
        _ => ReaderSpec::BadElement,
    }
}

/// A `Vec<E>` field reads its elements through `E`; any other path type is
/// read directly; other types are not supported.
pub open spec fn reader_spec(ty: TypeExpr) -> ReaderSpec {
    match ty {
        TypeExpr::Path(p) => if p.segments.len() == 0 {
            ReaderSpec::NotPath
        } else {
            let seg = p.segments[p.segments.len() - 1];
            if seg.ident@ == "Vec"@ {
                if seg.args.len() > 0 {
                    element_reader(seg.args[0])
                } else {
                    ReaderSpec::BadElement
                }
            } else {
                ReaderSpec::Direct
            }
        },
        _ => ReaderSpec::NotPath,
    }
}

pub open spec fn accessor_of(a: AccessorPlan, f: FieldDescriptor) -> bool {
    &&& a.field@ == f.ident@
    &&& match reader_spec(f.ty) {
        ReaderSpec::Direct => a.reader is Direct,
        ReaderSpec::Elements(e) => match a.reader {
            Reader::Elements(n) => n@ == e,
            Reader::Direct => false,
        },
        _ => false,
    }
}

pub open spec fn reader_ok(f: FieldDescriptor) -> bool {
    reader_spec(f.ty) is Direct || reader_spec(f.ty) is Elements
}

pub open spec fn is_reader_error(e: DeriveError, f: FieldDescriptor) -> bool {
    match reader_spec(f.ty) {
        ReaderSpec::NotPath => match e {
            DeriveError::NotPathType(n) => n@ == f.ident@,
            _ => false,
        },
        ReaderSpec::BadElement => match e {
            DeriveError::UnsupportedElementType(n) => n@ == f.ident@,
            _ => false,
        },
        _ => false,
    }
}

/// Plan how one field is read.
pub fn plan_accessor(f: &FieldDescriptor) -> (r: Result<AccessorPlan, DeriveError>)
    ensures
        match r {
            Ok(a) => reader_ok(*f) && accessor_of(a, *f),
            Err(e) => !reader_ok(*f) && is_reader_error(e, *f),
        },
{
    let field = f.ident.clone();
    match &f.ty {
        TypeExpr::Path(p) => {
            if p.segments.len() == 0 {
                return Err(DeriveError::NotPathType(field));
            }
            let seg = &p.segments[p.segments.len() - 1];
            if !str_eq(seg.ident.as_str(), "Vec") {
                return Ok(AccessorPlan { field, reader: Reader::Direct });
            }
            if seg.args.len() == 0 {
                return Err(DeriveError::UnsupportedElementType(field));
            }
            match &seg.args[0] {
                GenericArg::Type(TypeExpr::Path(q)) => {
                    if q.segments.len() == 0 {
                        return Err(DeriveError::UnsupportedElementType(field));
                    }
                    let elem = q.segments[q.segments.len() - 1].ident.clone();
                    Ok(AccessorPlan { field, reader: Reader::Elements(elem) })
                },
                _ => Err(DeriveError::UnsupportedElementType(field)),
            }
        },
        _ => Err(DeriveError::NotPathType(field)),
    }
}

/// Plan how each field is read, in order.
fn plan_accessors(fields: &Vec<FieldDescriptor>) -> (r: Result<Vec<AccessorPlan>, DeriveError>)
    ensures
        match r {
            Ok(accessors) => accessors.len() == fields.len() && forall|j: int|
                0 <= j < fields.len() ==> reader_ok(#[trigger] fields[j]) && accessor_of(
                    accessors[j],
                    fields[j],
                ),
            Err(e) => exists|j: int|
                0 <= j < fields.len() && !reader_ok(#[trigger] fields[j]) && (forall|i: int|
                    0 <= i < j ==> reader_ok(#[trigger] fields[i])) && is_reader_error(e, fields[j]),
        },
{
    let mut accessors: Vec<AccessorPlan> = Vec::new();
    let mut i: usize = 0;
    while i < fields.len()
        invariant
            i <= fields.len(),
            accessors.len() == i,
            forall|j: int|
                0 <= j < i ==> reader_ok(#[trigger] fields[j]) && accessor_of(accessors[j], fields[j]),
        decreases fields.len() - i,
    {
        match plan_accessor(&fields[i]) {
            Ok(a) => accessors.push(a),
            Err(e) => {
                assert(!reader_ok(fields[i as int]));
                return Err(e);
            },
        }
        i = i + 1;
    }
    Ok(accessors)
}

/// Plan the conversion of a struct with named fields from its external
/// interface handle, whose type name is the struct's prefixed with `I`.
pub fn plan_from_interface(input: &DeriveInput) -> (r: Result<InterfacePlan, DeriveError>)
    ensures
        match input.data {
            DeriveData::Struct(fields) => match r {
                Ok(plan) => plan.interface@ == "I"@ + input.ident@ && plan.accessors.len()
                    == fields.len() && forall|j: int|
                    0 <= j < fields.len() ==> reader_ok(#[trigger] fields[j]) && accessor_of(
                        plan.accessors[j],
                        fields[j],
                    ),
                Err(e) => exists|j: int|
                    0 <= j < fields.len() && !reader_ok(#[trigger] fields[j]) && (forall|i: int|
                        0 <= i < j ==> reader_ok(#[trigger] fields[i])) && is_reader_error(
                        e,
                        fields[j],
                    ),
            },
            _ => r matches Err(DeriveError::Unsupported),
        },
{
    match &input.data {
        DeriveData::Struct(fields) => {
            let accessors = plan_accessors(fields)?;
            let interface = concat("I", input.ident.as_str());
            Ok(InterfacePlan { interface, accessors })
        },
        _ => Err(DeriveError::Unsupported),
    }
}

} // verus!
