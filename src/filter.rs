//! Filter models that the grid hands to a row request, read off their
//! dynamic objects.
use vstd::prelude::*;
use chrono::{Datelike, Timelike};
use crate::serialize::opt_view;
use crate::text::str_eq;
use crate::value::{entry_lookup, has_key, JsData, JsValue, ObjectExt};
use vstd::pervasive::unreached;

verus! {

/// The string stored under `k`, if that is what is stored there.
pub open spec fn string_at(es: Seq<(Seq<char>, JsData)>, k: Seq<char>) -> Option<Seq<char>> {
    match entry_lookup(es, k) {
        Some(JsData::Str(s)) => Some(s),
        _ => None,
    }
}

/// The number stored under `k`, if that is what is stored there.
pub open spec fn number_at(es: Seq<(Seq<char>, JsData)>, k: Seq<char>) -> Option<int> {
    match entry_lookup(es, k) {
        Some(JsData::Number(n)) => Some(n),
        _ => None,
    }
}

/// The object stored under `k`, if that is what is stored there.
pub open spec fn object_at(es: Seq<(Seq<char>, JsData)>, k: Seq<char>) -> Option<
    Seq<(Seq<char>, JsData)>,
> {
    match entry_lookup(es, k) {
        Some(JsData::Object(o)) => Some(o),
        _ => None,
    }
}

/// How a filter compares a cell value with the filter value.
#[derive(Clone, Copy, PartialEq, Eq, Structural, Debug)]
pub enum Comparator {
    Equals,
    NotEquals,
    Contains,
    NotContains,
    StartsWith,
    EndsWith,
    LessThan,
    LessThanOrEqual,
    GreaterThan,
    GreaterThanOrEqual,
    InRange,
    Blank,
    NotBlank,
    ChooseOne,
}

/// The comparator that the grid names `s`.
pub open spec fn comparator_of(s: Seq<char>) -> Option<Comparator> {
    if s == "equals"@ {
        Some(Comparator::Equals)
    } else if s == "notEqual"@ {
        Some(Comparator::NotEquals)
    } else if s == "contains"@ {
        Some(Comparator::Contains)
    } else if s == "notContains"@ {
        Some(Comparator::NotContains)
    } else if s == "startsWith"@ {
        Some(Comparator::StartsWith)
    } else if s == "endsWith"@ {
        Some(Comparator::EndsWith)
    } else if s == "lessThan"@ {
        Some(Comparator::LessThan)
    } else if s == "lessThanOrEqual"@ {
        Some(Comparator::LessThanOrEqual)
    } else if s == "greaterThan"@ {
        Some(Comparator::GreaterThan)
    } else if s == "greaterThanOrEqual"@ {
        Some(Comparator::GreaterThanOrEqual)
    } else if s == "inRange"@ {
        Some(Comparator::InRange)
    } else if s == "blank"@ {
        Some(Comparator::Blank)
    } else if s == "notBlank"@ {
        Some(Comparator::NotBlank)
    } else if s == "empty"@ {
        Some(Comparator::ChooseOne)
    } else {
        None
    }
}

impl Comparator {
    /// The comparator that the grid names `s`, if there is one.
    pub fn parse(s: &str) -> (r: Option<Comparator>)
        ensures
            r == comparator_of(s@),
    {
        if str_eq(s, "equals") {
            Some(Comparator::Equals)
        } else if str_eq(s, "notEqual") {
            Some(Comparator::NotEquals)
        } else if str_eq(s, "contains") {
            Some(Comparator::Contains)
        } else if str_eq(s, "notContains") {
            Some(Comparator::NotContains)
        } else if str_eq(s, "startsWith") {
            Some(Comparator::StartsWith)
        } else if str_eq(s, "endsWith") {
            Some(Comparator::EndsWith)
        } else if str_eq(s, "lessThan") {
            Some(Comparator::LessThan)
        } else if str_eq(s, "lessThanOrEqual") {
            Some(Comparator::LessThanOrEqual)
        } else if str_eq(s, "greaterThan") {
            Some(Comparator::GreaterThan)
        } else if str_eq(s, "greaterThanOrEqual") {
            Some(Comparator::GreaterThanOrEqual)
        } else if str_eq(s, "inRange") {
            Some(Comparator::InRange)
        } else if str_eq(s, "blank") {
            Some(Comparator::Blank)
        } else if str_eq(s, "notBlank") {
            Some(Comparator::NotBlank)
        } else if str_eq(s, "empty") {
            Some(Comparator::ChooseOne)
        } else {
            None
        }
    }

    /// The comparator that the grid names `s`; the grid names only these.
    pub fn from_name(s: &str) -> (r: Comparator)
        requires
            comparator_of(s@) is Some,
        ensures
            comparator_of(s@) == Some(r),
    {
        match Comparator::parse(s) {
            Some(c) => c,
            None => unreached(),
        }
    }
}

/// How two conditions combine.
#[derive(Clone, Copy, PartialEq, Eq, Structural, Debug)]
pub enum JoinOperator {
    /// Both conditions must hold.
    And,
    /// Either condition must hold.
    Or,
}

pub open spec fn operator_of(s: Seq<char>) -> Option<JoinOperator> {
    if s == "AND"@ {
        Some(JoinOperator::And)
    } else if s == "OR"@ {
        Some(JoinOperator::Or)
    } else {
        None
    }
}

impl JoinOperator {
    /// The operator that the grid names `s`, if there is one.
    pub fn parse(s: &str) -> (r: Option<JoinOperator>)
        ensures
            r == operator_of(s@),
    {
        if str_eq(s, "AND") {
            Some(JoinOperator::And)
        } else if str_eq(s, "OR") {
            Some(JoinOperator::Or)
        } else {
            None
        }
    }

    /// The operator that the grid names `s`; the grid names only these two.
    pub fn from_name(s: &str) -> (r: JoinOperator)
        requires
            operator_of(s@) is Some,
        ensures
            operator_of(s@) == Some(r),
    {
        match JoinOperator::parse(s) {
            Some(o) => o,
            None => unreached(),
        }
    }
}

/// The comparator of a filter object: `Some(None)` when it names none,
/// `None` when it names one that does not exist.
pub open spec fn comparator_field(es: Seq<(Seq<char>, JsData)>) -> Option<Option<Comparator>> {
    match string_at(es, "type"@) {
        None => Some(None),
        Some(s) => match comparator_of(s) {
            Some(c) => Some(Some(c)),
            None => None,
        },
    }
}

/// Whether the comparator of a filter object, if it names one, exists.
pub fn comparator_ok(obj: &ObjectExt) -> (r: bool)
    ensures
        r == comparator_field(obj@) is Some,
{
    match obj.get_string("type") {
        None => true,
        Some(s) => Comparator::parse(s.as_str()).is_some(),
    }
}

fn read_comparator(obj: &ObjectExt) -> (r: Option<Comparator>)
    requires
        comparator_field(obj@) is Some,
    ensures
        comparator_field(obj@) == Some(r),
{
    match obj.get_string("type") {
        None => None,
        Some(s) => Some(Comparator::from_name(s.as_str())),
    }
}

/// A filter on text.
#[derive(Debug)]
pub struct TextFilter {
    pub filter: Option<String>,
    pub filter_to: Option<String>,
    pub comparator: Option<Comparator>,
}

pub open spec fn text_filter_of(t: TextFilter, es: Seq<(Seq<char>, JsData)>) -> bool {
    &&& comparator_field(es) == Some(t.comparator)
    &&& opt_view(t.filter) == string_at(es, "filter"@)
    &&& opt_view(t.filter_to) == string_at(es, "filterTo"@)
}

impl TextFilter {
    /// Read a text filter: `filter`, `filterTo` and the comparator `type`,
    /// which the grid names only among the known comparators.
    pub fn from_object(obj: &ObjectExt) -> (r: TextFilter)
        requires
            comparator_field(obj@) is Some,
        ensures
            text_filter_of(r, obj@),
    {
        let comparator = read_comparator(obj);
        TextFilter {
            filter: obj.get_string("filter"),
            filter_to: obj.get_string("filterTo"),
            comparator,
        }
    }
}

/// A filter on numbers.
#[derive(Debug)]
pub struct NumberFilter {
    pub filter: Option<i128>,
    pub filter_to: Option<i128>,
    pub comparator: Option<Comparator>,
}

pub open spec fn opt_int(n: Option<i128>) -> Option<int> {
    match n {
        Some(x) => Some(x as int),
        None => None,
    }
}

pub open spec fn number_filter_of(t: NumberFilter, es: Seq<(Seq<char>, JsData)>) -> bool {
    &&& comparator_field(es) == Some(t.comparator)
    &&& opt_int(t.filter) == number_at(es, "filter"@)
    &&& opt_int(t.filter_to) == number_at(es, "filterTo"@)
}

impl NumberFilter {
    /// Read a number filter: `filter`, `filterTo` and the comparator `type`,
    /// which the grid names only among the known comparators.
    pub fn from_object(obj: &ObjectExt) -> (r: NumberFilter)
        requires
            comparator_field(obj@) is Some,
        ensures
            number_filter_of(r, obj@),
    {
        let comparator = read_comparator(obj);
        NumberFilter {
            filter: obj.get_number("filter"),
            filter_to: obj.get_number("filterTo"),
            comparator,
        }
    }
}

/// A calendar date and a time of day.
#[derive(Clone, Copy, PartialEq, Eq, Structural, Debug)]
pub struct DateTime {
    pub year: i32,
    pub month: u32,
    pub day: u32,
    pub hour: u32,
    pub minute: u32,
    pub second: u32,
}

impl DateTime {
    pub open spec fn fields(&self) -> (int, int, int, int, int, int) {
        (
            self.year as int,
            self.month as int,
            self.day as int,
            self.hour as int,
            self.minute as int,
            self.second as int,
        )
    }

    /// Every component is in its range.
    pub open spec fn wf(&self) -> bool {
        &&& 1 <= self.month <= 12
        &&& 1 <= self.day <= 31
        &&& self.hour <= 23
        &&& self.minute <= 59
        &&& self.second <= 59
    }
}

/// The date and time that `s` reads as in the format `%Y-%m-%d %H:%M:%S`,
/// as chrono parses it.
pub uninterp spec fn parsed_date_time(s: Seq<char>) -> Option<(int, int, int, int, int, int)>;

/// Relies on chrono's `NaiveDateTime::parse_from_str` with the format
/// `%Y-%m-%d %H:%M:%S`, whose result depends on `s` alone, and on the
/// `Datelike` and `Timelike` accessors, which chrono documents to return a
/// month in 1..=12, a day in 1..=31, an hour in 0..=23 and a minute and a
/// second in 0..=59.
#[verifier::external_body]
fn parse_date_time(s: &str) -> (r: Option<DateTime>)
    ensures
        match r {
            Some(d) => parsed_date_time(s@) == Some(d.fields()) && d.wf(),
            None => parsed_date_time(s@) is None,
        },
{
    let dt = chrono::NaiveDateTime::parse_from_str(s, "%Y-%m-%d %H:%M:%S").ok()?;
    Some(
        DateTime {
            year: dt.year(),
            month: dt.month(),
            day: dt.day(),
            hour: dt.hour(),
            minute: dt.minute(),
            second: dt.second(),
        },
    )
}

/// The date under `k`: `Some(None)` when there is no string, `None` when the
/// string is not a date.
pub open spec fn date_field(es: Seq<(Seq<char>, JsData)>, k: Seq<char>) -> Option<
    Option<(int, int, int, int, int, int)>,
> {
    match string_at(es, k) {
        None => Some(None),
        Some(s) => match parsed_date_time(s) {
            Some(d) => Some(Some(d)),
            None => None,
        },
    }
}

pub open spec fn opt_fields(d: Option<DateTime>) -> Option<(int, int, int, int, int, int)> {
    match d {
        Some(x) => Some(x.fields()),
        None => None,
    }
}

fn date_ok(obj: &ObjectExt, key: &str) -> (r: bool)
    ensures
        r == date_field(obj@, key@) is Some,
{
    match obj.get_string(key) {
        None => true,
        Some(s) => parse_date_time(s.as_str()).is_some(),
    }
}

fn read_date(obj: &ObjectExt, key: &str) -> (r: Option<DateTime>)
    requires
        date_field(obj@, key@) is Some,
    ensures
        date_field(obj@, key@) == Some(opt_fields(r)),
{
    match obj.get_string(key) {
        None => None,
        Some(s) => match parse_date_time(s.as_str()) {
            Some(d) => Some(d),
            None => unreached(),
        },
    }
}

/// A filter on dates.
#[derive(Debug)]
pub struct DateFilter {
    pub filter: Option<DateTime>,
    pub filter_to: Option<DateTime>,
    pub comparator: Option<Comparator>,
}

pub open spec fn date_filter_of(t: DateFilter, es: Seq<(Seq<char>, JsData)>) -> bool {
    &&& comparator_field(es) == Some(t.comparator)
    &&& date_field(es, "dateFrom"@) == Some(opt_fields(t.filter))
    &&& date_field(es, "dateTo"@) == Some(opt_fields(t.filter_to))
}

pub open spec fn date_filter_fails(es: Seq<(Seq<char>, JsData)>) -> bool {
    comparator_field(es) is None || date_field(es, "dateFrom"@) is None || date_field(
        es,
        "dateTo"@,
    ) is None
}

/// Whether a date filter object has the shape that the grid promises.
pub fn date_filter_ok(obj: &ObjectExt) -> (r: bool)
    ensures
        r == !date_filter_fails(obj@),
{
    comparator_ok(obj) && date_ok(obj, "dateFrom") && date_ok(obj, "dateTo")
}

impl DateFilter {
    /// Read a date filter: the comparator `type`, `filter` from `dateFrom`
    /// and `filter_to` from `dateTo`, each date in the form
    /// `YYYY-MM-DD hh:mm:ss` that the grid sends.
    pub fn from_object(obj: &ObjectExt) -> (r: DateFilter)
        requires
            !date_filter_fails(obj@),
        ensures
            date_filter_of(r, obj@),
    {
        let comparator = read_comparator(obj);
        let filter = read_date(obj, "dateFrom");
        let filter_to = read_date(obj, "dateTo");
        DateFilter { filter, filter_to, comparator }
    }
}

/// A single filter, by the kind of the column.
#[derive(Debug)]
pub enum FilterModel {
    Text(TextFilter),
    Number(NumberFilter),
    Date(DateFilter),
}

pub open spec fn filter_model_of(m: FilterModel, es: Seq<(Seq<char>, JsData)>) -> bool {
    match m {
        FilterModel::Text(t) => string_at(es, "filterType"@) == Some("text"@) && text_filter_of(t, es),
        FilterModel::Number(t) => string_at(es, "filterType"@) == Some("number"@) && number_filter_of(
            t,
            es,
        ),
        FilterModel::Date(t) => string_at(es, "filterType"@) == Some("date"@) && date_filter_of(t, es),
    }
}

pub open spec fn filter_model_fails(es: Seq<(Seq<char>, JsData)>) -> bool {
    match string_at(es, "filterType"@) {
        None => true,
        Some(t) => if t == "text"@ || t == "number"@ {
            comparator_field(es) is None
        } else if t == "date"@ {
            date_filter_fails(es)
        } else {
            true
        },
    }
}

/// Whether a single filter object has the shape that the grid promises.
pub fn filter_model_ok(obj: &ObjectExt) -> (r: bool)
    ensures
        r == !filter_model_fails(obj@),
{
    match obj.get_string("filterType") {
        None => false,
        Some(t) => {
            if str_eq(t.as_str(), "text") || str_eq(t.as_str(), "number") {
                comparator_ok(obj)
            } else if str_eq(t.as_str(), "date") {
                date_filter_ok(obj)
            } else {
                false
            }
        },
    }
}

fn read_string(obj: &ObjectExt, key: &str) -> (r: String)
    requires
        string_at(obj@, key@) is Some,
    ensures
        string_at(obj@, key@) == Some(r@),
{
    match obj.get_string(key) {
        Some(s) => s,
        None => unreached(),
    }
}

impl FilterModel {
    /// Read a single filter, of the kind that `filterType` names.
    pub fn from_object(obj: &ObjectExt) -> (r: FilterModel)
        requires
            !filter_model_fails(obj@),
        ensures
            filter_model_of(r, obj@),
    {
        let filter_type = read_string(obj, "filterType");
        if str_eq(filter_type.as_str(), "text") {
            FilterModel::Text(TextFilter::from_object(obj))
        } else if str_eq(filter_type.as_str(), "number") {
            FilterModel::Number(NumberFilter::from_object(obj))
        } else if str_eq(filter_type.as_str(), "date") {
            FilterModel::Date(DateFilter::from_object(obj))
        } else {
            unreached()
        }
    }
}

/// Two text conditions and how they combine.
#[derive(Debug)]
pub struct CombinedTextFilter {
    pub condition_1: TextFilter,
    pub condition_2: TextFilter,
    pub operator: JoinOperator,
}

/// Two number conditions and how they combine.
#[derive(Debug)]
pub struct CombinedNumberFilter {
    pub condition_1: NumberFilter,
    pub condition_2: NumberFilter,
    pub operator: JoinOperator,
}

/// Two date conditions and how they combine.
#[derive(Debug)]
pub struct CombinedDateFilter {
    pub condition_1: DateFilter,
    pub condition_2: DateFilter,
    pub operator: JoinOperator,
}

/// Two conditions of one kind of column.
#[derive(Debug)]
pub enum CombinedFilterModel {
    Text(CombinedTextFilter),
    Number(CombinedNumberFilter),
    Date(CombinedDateFilter),
}

/// The operator of a combined filter object, if it names one.
pub open spec fn operator_field(es: Seq<(Seq<char>, JsData)>) -> Option<JoinOperator> {
    match string_at(es, "operator"@) {
        Some(s) => operator_of(s),
        None => None,
    }
}

/// Whether the two condition objects are there and satisfy `p`.
pub open spec fn conditions_hold(
    es: Seq<(Seq<char>, JsData)>,
    p: spec_fn(Seq<(Seq<char>, JsData)>, Seq<(Seq<char>, JsData)>) -> bool,
) -> bool {
    match (object_at(es, "condition1"@), object_at(es, "condition2"@)) {
        (Some(o1), Some(o2)) => p(o1, o2),
        _ => false,
    }
}

pub open spec fn combined_filter_of(m: CombinedFilterModel, es: Seq<(Seq<char>, JsData)>) -> bool {
    match m {
        CombinedFilterModel::Text(c) => string_at(es, "filterType"@) == Some("text"@)
            && operator_field(es) == Some(c.operator) && conditions_hold(
            es,
            |o1: Seq<(Seq<char>, JsData)>, o2: Seq<(Seq<char>, JsData)>|
                text_filter_of(c.condition_1, o1) && text_filter_of(c.condition_2, o2),
        ),
        CombinedFilterModel::Number(c) => string_at(es, "filterType"@) == Some("number"@)
            && operator_field(es) == Some(c.operator) && conditions_hold(
            es,
            |o1: Seq<(Seq<char>, JsData)>, o2: Seq<(Seq<char>, JsData)>|
                number_filter_of(c.condition_1, o1) && number_filter_of(c.condition_2, o2),
        ),
        CombinedFilterModel::Date(c) => string_at(es, "filterType"@) == Some("date"@)
            && operator_field(es) == Some(c.operator) && conditions_hold(
            es,
            |o1: Seq<(Seq<char>, JsData)>, o2: Seq<(Seq<char>, JsData)>|
                date_filter_of(c.condition_1, o1) && date_filter_of(c.condition_2, o2),
        ),
    }
}

pub open spec fn combined_filter_fails(es: Seq<(Seq<char>, JsData)>) -> bool {
    match string_at(es, "filterType"@) {
        None => true,
        Some(t) => operator_field(es) is None || !conditions_hold(
            es,
            |o1: Seq<(Seq<char>, JsData)>, o2: Seq<(Seq<char>, JsData)>|
                if t == "text"@ || t == "number"@ {
                    comparator_field(o1) is Some && comparator_field(o2) is Some
                } else if t == "date"@ {
                    !date_filter_fails(o1) && !date_filter_fails(o2)
                } else {
                    false
                },
        ),
    }
}

fn object_ref<'a>(obj: &'a ObjectExt, key: &str) -> (r: Option<&'a ObjectExt>)
    ensures
        match r {
            Some(o) => object_at(obj@, key@) == Some(o@),
            None => object_at(obj@, key@) is None,
        },
{
    match obj.get_ref(key) {
        Some(JsValue::Object(o)) => Some(o),
        _ => None,
    }
}

/// Whether a combined filter object has the shape that the grid promises.
pub fn combined_filter_ok(obj: &ObjectExt) -> (r: bool)
    ensures
        r == !combined_filter_fails(obj@),
{
    let t = match obj.get_string("filterType") {
        Some(t) => t,
        None => {
            return false;
        },
    };
    let op = match obj.get_string("operator") {
        Some(o) => o,
        None => {
            return false;
        },
    };
    if JoinOperator::parse(op.as_str()).is_none() {
        return false;
    }
    let c1 = match object_ref(obj, "condition1") {
        Some(c) => c,
        None => {
            return false;
        },
    };
    let c2 = match object_ref(obj, "condition2") {
        Some(c) => c,
        None => {
            return false;
        },
    };
    if str_eq(t.as_str(), "text") || str_eq(t.as_str(), "number") {
        comparator_ok(c1) && comparator_ok(c2)
    } else if str_eq(t.as_str(), "date") {
        date_filter_ok(c1) && date_filter_ok(c2)
    } else {
        false
    }
}

impl CombinedFilterModel {
    /// Read two conditions, `condition1` and `condition2`, of the kind that
    /// `filterType` names, joined by `operator`.
    pub fn from_object(obj: &ObjectExt) -> (r: CombinedFilterModel)
        requires
            !combined_filter_fails(obj@),
        ensures
            combined_filter_of(r, obj@),
    {
        let filter_type = read_string(obj, "filterType");
        let op_name = read_string(obj, "operator");
        let operator = JoinOperator::from_name(op_name.as_str());
        let (c1, c2) = match (object_ref(obj, "condition1"), object_ref(obj, "condition2")) {
            (Some(c1), Some(c2)) => (c1, c2),
            _ => unreached(),
        };
        if str_eq(filter_type.as_str(), "text") {
            let condition_1 = TextFilter::from_object(c1);
            let condition_2 = TextFilter::from_object(c2);
            CombinedFilterModel::Text(CombinedTextFilter { condition_1, condition_2, operator })
        } else if str_eq(filter_type.as_str(), "number") {
            let condition_1 = NumberFilter::from_object(c1);
            let condition_2 = NumberFilter::from_object(c2);
            CombinedFilterModel::Number(CombinedNumberFilter { condition_1, condition_2, operator })
        } else if str_eq(filter_type.as_str(), "date") {
            let condition_1 = DateFilter::from_object(c1);
            let condition_2 = DateFilter::from_object(c2);
            CombinedFilterModel::Date(CombinedDateFilter { condition_1, condition_2, operator })
        } else {
            unreached()
        }
    }
}

/// The filter of one column: a single condition, or two combined.
#[derive(Debug)]
pub enum FilterModelType {
    Single(FilterModel),
    Combined(CombinedFilterModel),
}

/// An object with an `operator` is a combined filter; any other is single.
pub open spec fn filter_model_type_of(m: FilterModelType, d: JsData) -> bool {
    match d {
        JsData::Object(es) => match m {
            FilterModelType::Single(f) => !has_key(es, "operator"@) && filter_model_of(f, es),
            FilterModelType::Combined(c) => has_key(es, "operator"@) && combined_filter_of(c, es),
        },
        _ => false,
    }
}

pub open spec fn filter_model_type_fails(d: JsData) -> bool {
    match d {
        JsData::Object(es) => if has_key(es, "operator"@) {
            combined_filter_fails(es)
        } else {
            filter_model_fails(es)
        },
        _ => true,
    }
}

/// Whether the filter of one column has the shape that the grid promises.
pub fn filter_model_type_ok(v: &JsValue) -> (r: bool)
    ensures
        r == !filter_model_type_fails(v@),
{
    match v {
        JsValue::Object(o) => {
            if o.has_own_property("operator") {
                combined_filter_ok(o)
            } else {
                filter_model_ok(o)
            }
        },
        _ => false,
    }
}

impl FilterModelType {
    /// Read the filter of one column from its dynamic value.
    pub fn from_value(v: &JsValue) -> (r: FilterModelType)
        requires
            !filter_model_type_fails(v@),
        ensures
            filter_model_type_of(r, v@),
    {
        match v {
            JsValue::Object(o) => {
                if o.has_own_property("operator") {
                    FilterModelType::Combined(CombinedFilterModel::from_object(o))
                } else {
                    FilterModelType::Single(FilterModel::from_object(o))
                }
            },
            _ => unreached(),
        }
    }
}

} // verus!
