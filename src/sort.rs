//! Sorting: the directions a row request asks for, and the sort methods a
//! column is configured with.
use vstd::prelude::*;
use crate::convert::ToJsValue;
use crate::filter::string_at;
use vstd::pervasive::unreached;
use crate::text::str_eq;
use crate::value::{JsData, JsValue};

verus! {

/// A direction in which to sort data.
#[derive(Clone, Copy, PartialEq, Eq, Structural, Debug)]
pub enum SortDirection {
    Asc,
    Desc,
}

pub open spec fn direction_of(s: Seq<char>) -> Option<SortDirection> {
    if s == "asc"@ {
        Some(SortDirection::Asc)
    } else if s == "desc"@ {
        Some(SortDirection::Desc)
    } else {
        None
    }
}

impl SortDirection {
    /// The direction that the grid names `s`, if there is one.
    pub fn parse(s: &str) -> (r: Option<SortDirection>)
        ensures
            r == direction_of(s@),
    {
        if str_eq(s, "asc") {
            Some(SortDirection::Asc)
        } else if str_eq(s, "desc") {
            Some(SortDirection::Desc)
        } else {
            None
        }
    }
}

/// How to sort one column of the requested data.
#[derive(Debug)]
pub struct SortModelItem {
    /// Which column to sort.
    pub col_id: String,
    /// How the column should be sorted.
    pub sort: SortDirection,
}

pub open spec fn sort_item_of(item: SortModelItem, d: JsData) -> bool {
    match d {
        JsData::Object(es) => string_at(es, "colId"@) == Some(item.col_id@) && match string_at(
            es,
            "sort"@,
        ) {
            Some(s) => direction_of(s) == Some(item.sort),
            None => false,
        },
        _ => false,
    }
}

pub open spec fn sort_item_fails(d: JsData) -> bool {
    match d {
        JsData::Object(es) => string_at(es, "colId"@) is None || match string_at(es, "sort"@) {
            Some(s) => direction_of(s) is None,
            None => true,
        },
        _ => true,
    }
}

/// Whether a sort model entry has the shape that the grid promises.
pub fn sort_item_ok(v: &JsValue) -> (r: bool)
    ensures
        r == !sort_item_fails(v@),
{
    match v {
        JsValue::Object(obj) => obj.get_string("colId").is_some() && match obj.get_string("sort") {
            Some(name) => SortDirection::parse(name.as_str()).is_some(),
            None => false,
        },
        _ => false,
    }
}

impl SortModelItem {
    /// Read a sort model entry: its `colId` and its `sort` direction.
    pub fn from_value(v: &JsValue) -> (r: SortModelItem)
        requires
            !sort_item_fails(v@),
        ensures
            sort_item_of(r, v@),
    {
        match v {
            JsValue::Object(obj) => match (obj.get_string("colId"), obj.get_string("sort")) {
                (Some(col_id), Some(name)) => match SortDirection::parse(name.as_str()) {
                    Some(sort) => SortModelItem { col_id, sort },
                    None => unreached(),
                },
                _ => unreached(),
            },
            _ => unreached(),
        }
    }
}

/// How a column is sorted by default.
#[derive(Clone, Copy, PartialEq, Eq, Structural, Debug)]
pub enum SortMethod {
    Asc,
    Desc,
    /// Not sorted; serialized as `null`.
    Null,
}

impl ToJsValue for SortMethod {
    open spec fn js_data(&self) -> JsData {
        match self {
            SortMethod::Asc => JsData::Str("asc"@),
            SortMethod::Desc => JsData::Str("desc"@),
            SortMethod::Null => JsData::Null,
        }
    }

    fn to_js_value(&self) -> (r: JsValue) {
        match self {
            SortMethod::Asc => JsValue::Str("asc".to_owned()),
            SortMethod::Desc => JsValue::Str("desc".to_owned()),
            SortMethod::Null => JsValue::Null,
        }
    }
}

} // verus!
