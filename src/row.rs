//! Rows of data for a client-side grid.
use vstd::prelude::*;
use crate::convert::ToJsValue;
use crate::value::{entry_set, JsData, JsValue, ObjectExt};

verus! {

/// The entries after writing each pair in order.
pub open spec fn entries_from_pairs(pairs: Seq<(Seq<char>, JsData)>) -> Seq<(Seq<char>, JsData)>
    decreases pairs.len(),
{
    if pairs.len() == 0 {
        Seq::empty()
    } else {
        entry_set(entries_from_pairs(pairs.drop_last()), pairs.last().0, pairs.last().1)
    }
}

pub open spec fn pairs_view(pairs: Seq<(String, JsValue)>) -> Seq<(Seq<char>, JsData)> {
    pairs.map_values(|p: (String, JsValue)| (p.0@, p.1@))
}

/// A row: values under their field names.
#[derive(Debug)]
pub struct RowData {
    pub data: ObjectExt,
}

impl RowData {
    /// A row from its field names and converted values, in order; a later
    /// value overwrites an earlier one under the same name.
    pub fn new(data: Vec<(String, JsValue)>) -> (r: RowData)
        ensures
            r.data@ == entries_from_pairs(pairs_view(data@)),
    {
        let ghost pv = pairs_view(data@);
        let n = data.len();
        let mut rest = data;
        let mut obj = ObjectExt::new();
        let mut i: usize = 0;
        while i < n
            invariant
                n == pv.len(),
                i <= n,
                rest.len() == n - i,
                forall|j: int|
                    0 <= j < n - i ==> (#[trigger] rest@[j]).0@ == pv[i + j].0 && rest@[j].1@
                        == pv[i + j].1,
                obj@ == entries_from_pairs(pv.subrange(0, i as int)),
            decreases n - i,
        {
            let (k, v) = rest.remove(0);
            obj.set(k.as_str(), v);
            assert(pv.subrange(0, i as int + 1).drop_last() =~= pv.subrange(0, i as int));
            i = i + 1;
        }
        assert(pv.subrange(0, n as int) =~= pv);
        RowData { data: obj }
    }
}

impl ToJsValue for RowData {
    /// A row is handed to the grid as an array holding its object.
    open spec fn js_data(&self) -> JsData {
        JsData::Array(seq![JsData::Object(self.data@)])
    }

    fn to_js_value(&self) -> (r: JsValue) {
        let mut arr: Vec<JsValue> = Vec::new();
        let c = self.data.deep_clone();
        arr.push(JsValue::Object(c));
        assert(arr[0]@ == JsData::Object(self.data@));
        let r = JsValue::Array(arr);
        assert(r@ == self.js_data()) by {
            if let JsData::Array(a) = r@ {
                assert(a[0] == JsData::Object(self.data@));
                assert(a =~= seq![JsData::Object(self.data@)]);
            }
        }
        r
    }
}

} // verus!
