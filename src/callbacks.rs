//! The parameters that the grid passes to callbacks, read off their dynamic
//! objects, and the reply to a row request.
use vstd::prelude::*;
use crate::convert::{array_of, ToJsValue};
use crate::filter::{
    filter_model_type_fails, filter_model_type_ok, filter_model_type_of, number_at, string_at,
    FilterModelType,
};
use crate::serialize::opt_view;
use crate::sort::{sort_item_fails, sort_item_of, sort_item_ok, SortModelItem};
use crate::value::{entry_lookup, JsData, JsValue, ObjectExt};
use vstd::pervasive::unreached;

verus! {

/// Parameters of the callback that computes a column's header.
#[derive(Debug)]
pub struct HeaderValueGetterParams {
    /// Where the column is going to appear.
    pub location: Option<String>,
}

impl HeaderValueGetterParams {
    /// Read the parameters: an optional `location`.
    pub fn from_object(obj: &ObjectExt) -> (r: HeaderValueGetterParams)
        ensures
            opt_view(r.location) == string_at(obj@, "location"@),
    {
        HeaderValueGetterParams { location: obj.get_string("location") }
    }
}

/// Parameters of a row request.
#[derive(Debug)]
pub struct GetRowsParams {
    /// The first row index to get.
    pub start_row: u32,
    /// The first row index to not get.
    pub end_row: u32,
    /// How the data is expected to be sorted.
    pub sort_model: Vec<SortModelItem>,
    /// How each column, by its id, filters the data, in the order given.
    pub filter_model: Vec<(String, FilterModelType)>,
}

/// The number under `k`, if it is a row index.
pub open spec fn row_index_at(es: Seq<(Seq<char>, JsData)>, k: Seq<char>) -> Option<u32> {
    match number_at(es, k) {
        Some(n) => if 0 <= n <= u32::MAX {
            Some(n as u32)
        } else {
            None
        },
        None => None,
    }
}

pub open spec fn sort_model_of(items: Seq<SortModelItem>, d: JsData) -> bool {
    match d {
        JsData::Array(a) => items.len() == a.len() && forall|i: int|
            0 <= i < a.len() ==> sort_item_of(#[trigger] items[i], a[i]),
        _ => false,
    }
}

pub open spec fn sort_model_fails(d: JsData) -> bool {
    match d {
        JsData::Array(a) => exists|i: int| 0 <= i < a.len() && sort_item_fails(#[trigger] a[i]),
        _ => true,
    }
}

pub open spec fn filter_models_of(fs: Seq<(String, FilterModelType)>, d: JsData) -> bool {
    match d {
        JsData::Object(es) => fs.len() == es.len() && forall|i: int|
            0 <= i < es.len() ==> (#[trigger] fs[i]).0@ == es[i].0 && filter_model_type_of(
                fs[i].1,
                es[i].1,
            ),
        _ => false,
    }
}

pub open spec fn filter_models_fail(d: JsData) -> bool {
    match d {
        JsData::Object(es) => exists|i: int|
            #![trigger es[i]]
            0 <= i < es.len() && filter_model_type_fails(es[i].1),
        _ => true,
    }
}

pub open spec fn lookup_or_undefined(es: Seq<(Seq<char>, JsData)>, k: Seq<char>) -> JsData {
    match entry_lookup(es, k) {
        Some(v) => v,
        None => JsData::Undefined,
    }
}

pub open spec fn get_rows_params_of(p: GetRowsParams, es: Seq<(Seq<char>, JsData)>) -> bool {
    &&& row_index_at(es, "startRow"@) == Some(p.start_row)
    &&& row_index_at(es, "endRow"@) == Some(p.end_row)
    &&& sort_model_of(p.sort_model@, lookup_or_undefined(es, "sortModel"@))
    &&& filter_models_of(p.filter_model@, lookup_or_undefined(es, "filterModel"@))
}

pub open spec fn get_rows_params_fail(es: Seq<(Seq<char>, JsData)>) -> bool {
    ||| row_index_at(es, "startRow"@) is None
    ||| row_index_at(es, "endRow"@) is None
    ||| sort_model_fails(lookup_or_undefined(es, "sortModel"@))
    ||| filter_models_fail(lookup_or_undefined(es, "filterModel"@))
}

fn row_index_ok(obj: &ObjectExt, key: &str) -> (r: bool)
    ensures
        r == row_index_at(obj@, key@) is Some,
{
    match obj.get_number(key) {
        Some(n) => 0 <= n && n <= u32::MAX as i128,
        None => false,
    }
}

fn read_row_index(obj: &ObjectExt, key: &str) -> (r: u32)
    requires
        row_index_at(obj@, key@) is Some,
    ensures
        row_index_at(obj@, key@) == Some(r),
{
    match obj.get_number(key) {
        Some(n) => n as u32,
        None => unreached(),
    }
}

fn sort_model_ok(obj: &ObjectExt) -> (r: bool)
    ensures
        r == !sort_model_fails(lookup_or_undefined(obj@, "sortModel"@)),
{
    let arr = match obj.get_ref("sortModel") {
        Some(JsValue::Array(a)) => a,
        _ => {
            return false;
        },
    };
    let ghost d = lookup_or_undefined(obj@, "sortModel"@);
    let mut i: usize = 0;
    while i < arr.len()
        invariant
            d == lookup_or_undefined(obj@, "sortModel"@),
            d == JsValue::Array(*arr)@,
            i <= arr.len(),
            forall|j: int| 0 <= j < i ==> !sort_item_fails(#[trigger] arr[j]@),
        decreases arr.len() - i,
    {
        if !sort_item_ok(&arr[i]) {
            proof {
                if let JsData::Array(a) = d {
                    assert(a[i as int] == arr[i as int]@);
                }
            }
            return false;
        }
        i = i + 1;
    }
    proof {
        if let JsData::Array(a) = d {
            assert forall|j: int| 0 <= j < a.len() implies !sort_item_fails(#[trigger] a[j]) by {
                assert(a[j] == arr[j]@);
            }
        }
    }
    true
}

fn read_sort_model(obj: &ObjectExt) -> (r: Vec<SortModelItem>)
    requires
        !sort_model_fails(lookup_or_undefined(obj@, "sortModel"@)),
    ensures
        sort_model_of(r@, lookup_or_undefined(obj@, "sortModel"@)),
{
    let arr = match obj.get_ref("sortModel") {
        Some(JsValue::Array(a)) => a,
        _ => unreached(),
    };
    let ghost d = lookup_or_undefined(obj@, "sortModel"@);
    let mut items: Vec<SortModelItem> = Vec::new();
    let mut i: usize = 0;
    while i < arr.len()
        invariant
            d == lookup_or_undefined(obj@, "sortModel"@),
            d == JsValue::Array(*arr)@,
            !sort_model_fails(d),
            i <= arr.len(),
            items.len() == i,
            forall|j: int| 0 <= j < i ==> sort_item_of(#[trigger] items@[j], arr[j]@),
        decreases arr.len() - i,
    {
        proof {
            if let JsData::Array(a) = d {
                assert(a[i as int] == arr[i as int]@);
            }
        }
        items.push(SortModelItem::from_value(&arr[i]));
        i = i + 1;
    }
    proof {
        if let JsData::Array(a) = d {
            assert forall|j: int| 0 <= j < a.len() implies sort_item_of(#[trigger] items@[j], a[j]) by {
                assert(a[j] == arr[j]@);
            }
        }
    }
    items
}

proof fn lemma_filter_models_fail(es: Seq<(Seq<char>, JsData)>, k: int)
    requires
        0 <= k < es.len(),
        filter_model_type_fails(es[k].1),
    ensures
        filter_models_fail(JsData::Object(es)),
{
    let d = JsData::Object(es);
    assert(d->Object_0 == es);
    assert(exists|i: int| #![trigger es[i]] 0 <= i < es.len() && filter_model_type_fails(es[i].1));
}

fn filter_models_ok(obj: &ObjectExt) -> (r: bool)
    ensures
        r == !filter_models_fail(lookup_or_undefined(obj@, "filterModel"@)),
{
    let fobj = match obj.get_ref("filterModel") {
        Some(JsValue::Object(o)) => o,
        _ => {
            return false;
        },
    };
    let ghost es = fobj@;
    let values = fobj.values();
    let mut i: usize = 0;
    while i < values.len()
        invariant
            lookup_or_undefined(obj@, "filterModel"@) == JsData::Object(es),
            values@.len() == es.len(),
            forall|j: int| 0 <= j < values@.len() ==> (#[trigger] values@[j])@ == es[j].1,
            i <= values.len(),
            forall|j: int| #![trigger es[j]] 0 <= j < i ==> !filter_model_type_fails(es[j].1),
        decreases values.len() - i,
    {
        if !filter_model_type_ok(&values[i]) {
            proof {
                lemma_filter_models_fail(es, i as int);
            }
            return false;
        }
        i = i + 1;
    }
    true
}

fn read_filter_model(obj: &ObjectExt) -> (r: Vec<(String, FilterModelType)>)
    requires
        !filter_models_fail(lookup_or_undefined(obj@, "filterModel"@)),
    ensures
        filter_models_of(r@, lookup_or_undefined(obj@, "filterModel"@)),
{
    let fobj = match obj.get_ref("filterModel") {
        Some(JsValue::Object(o)) => o,
        _ => unreached(),
    };
    let ghost es = fobj@;
    let entries = fobj.entries();
    let mut out: Vec<(String, FilterModelType)> = Vec::new();
    let mut i: usize = 0;
    while i < entries.len()
        invariant
            lookup_or_undefined(obj@, "filterModel"@) == JsData::Object(es),
            !filter_models_fail(JsData::Object(es)),
            entries@.len() == es.len(),
            forall|j: int|
                0 <= j < entries@.len() ==> (#[trigger] entries@[j]).0@ == es[j].0 && entries@[j].1@
                    == es[j].1,
            i <= entries.len(),
            out.len() == i,
            forall|j: int|
                0 <= j < i ==> (#[trigger] out@[j]).0@ == es[j].0 && filter_model_type_of(
                    out@[j].1,
                    es[j].1,
                ),
        decreases entries.len() - i,
    {
        proof {
            if filter_model_type_fails(es[i as int].1) {
                lemma_filter_models_fail(es, i as int);
            }
        }
        let key = entries[i].0.clone();
        let m = FilterModelType::from_value(&entries[i].1);
        out.push((key, m));
        i = i + 1;
    }
    out
}

impl GetRowsParams {
    /// Whether a row request has the shape that the grid promises.
    pub fn is_well_formed(obj: &ObjectExt) -> (r: bool)
        ensures
            r == !get_rows_params_fail(obj@),
    {
        row_index_ok(obj, "startRow") && row_index_ok(obj, "endRow") && sort_model_ok(obj)
            && filter_models_ok(obj)
    }

    /// Read a row request: `startRow`, `endRow`, `sortModel` and
    /// `filterModel`, each filter by its column id.
    pub fn from_object(obj: &ObjectExt) -> (r: GetRowsParams)
        requires
            !get_rows_params_fail(obj@),
        ensures
            get_rows_params_of(r, obj@),
    {
        let start_row = read_row_index(obj, "startRow");
        let end_row = read_row_index(obj, "endRow");
        let sort_model = read_sort_model(obj);
        let filter_model = read_filter_model(obj);
        GetRowsParams { start_row, end_row, sort_model, filter_model }
    }

    /// Read a row request if it has the shape that the grid promises.
    pub fn read(obj: &ObjectExt) -> (r: Option<GetRowsParams>)
        ensures
            match r {
                Some(p) => !get_rows_params_fail(obj@) && get_rows_params_of(p, obj@),
                None => get_rows_params_fail(obj@),
            },
    {
        if GetRowsParams::is_well_formed(obj) {
            Some(GetRowsParams::from_object(obj))
        } else {
            None
        }
    }
}

/// What a row request is answered with: exactly one of the grid's two
/// callbacks, called once.
#[derive(Debug)]
pub enum RowsReply {
    /// Call the success callback with the rows and the index of the last row,
    /// if known.
    Success { rows: JsValue, last_row: JsValue },
    /// Call the failure callback, without arguments.
    Failure,
}

/// The reply to a row request once the user's fetch has finished.
pub fn get_rows_reply<T: ToJsValue>(outcome: &Result<(Vec<T>, Option<u32>), String>) -> (r: RowsReply)
    ensures
        match outcome {
            Ok((rows, last)) => match r {
                RowsReply::Success { rows: rv, last_row } => rv@ == array_of(rows@) && last_row@
                    == last.js_data(),
                RowsReply::Failure => false,
            },
            Err(_) => r is Failure,
        },
{
    match outcome {
        Ok((rows, last)) => RowsReply::Success {
            rows: rows.to_js_value(),
            last_row: last.to_js_value(),
        },
        Err(_) => RowsReply::Failure,
    }
}

} // verus!
