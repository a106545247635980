//! Values that the configuration types share.
use vstd::prelude::*;
use crate::convert::{array_of, ToJsValue};
use crate::row::entries_from_pairs;
use crate::value::{JsData, JsValue, ObjectExt};

verus! {

/// One value, or a sequence of them.
#[derive(Debug)]
pub enum OneOrMany<T> {
    One(T),
    Many(Vec<T>),
}

impl<T: ToJsValue> ToJsValue for OneOrMany<T> {
    /// One value converts bare; many convert to an array.
    open spec fn js_data(&self) -> JsData {
        match self {
            OneOrMany::One(v) => v.js_data(),
            OneOrMany::Many(v) => array_of(v@),
        }
    }

    fn to_js_value(&self) -> (r: JsValue) {
        match self {
            OneOrMany::One(v) => v.to_js_value(),
            OneOrMany::Many(v) => v.to_js_value(),
        }
    }
}

/// A string stored through the singular setter serializes to that bare
/// string; strings stored through the many-strings setter serialize to an
/// array of them, in input order.
pub proof fn law_one_or_many_strings(one: String, many: Vec<String>)
    ensures
        OneOrMany::One(one).js_data() == JsData::Str(one@),
        OneOrMany::Many(many).js_data() matches JsData::Array(a) && a.len() == many@.len()
            && forall|i: int| 0 <= i < a.len() ==> #[trigger] a[i] == JsData::Str(many@[i]@),
{
}

/// A callable that the runtime owns, referred to by its handle. A callback
/// of the host is handed over to the runtime once, when it is registered;
/// the configuration then carries only the handle.
#[derive(Clone, Copy, PartialEq, Eq, Structural, Debug)]
pub struct Callback {
    pub handle: u64,
}

impl ToJsValue for Callback {
    open spec fn js_data(&self) -> JsData {
        JsData::Function(self.handle)
    }

    fn to_js_value(&self) -> (r: JsValue) {
        JsValue::Function(self.handle)
    }
}

/// The option holds a string with the characters `s`.
pub open spec fn holds_str(o: Option<String>, s: Seq<char>) -> bool {
    match o {
        Some(t) => t@ == s,
        None => false,
    }
}

/// The option holds one string with the characters `s`.
pub open spec fn holds_one(o: Option<OneOrMany<String>>, s: Seq<char>) -> bool {
    match o {
        Some(OneOrMany::One(t)) => t@ == s,
        _ => false,
    }
}

/// Values under string keys, in insertion order; a later entry overwrites an
/// earlier one under the same key when converted.
#[derive(Debug)]
pub struct StringMap<V> {
    pub entries: Vec<(String, V)>,
}

pub open spec fn converted_pairs<V: ToJsValue>(s: Seq<(String, V)>) -> Seq<(Seq<char>, JsData)> {
    s.map_values(|p: (String, V)| (p.0@, p.1.js_data()))
}

impl<V: ToJsValue> ToJsValue for StringMap<V> {
    /// An object with each entry written in order.
    open spec fn js_data(&self) -> JsData {
        JsData::Object(entries_from_pairs(converted_pairs(self.entries@)))
    }

    fn to_js_value(&self) -> (r: JsValue) {
        let ghost pv = converted_pairs(self.entries@);
        let mut obj = ObjectExt::new();
        let mut i: usize = 0;
        while i < self.entries.len()
            invariant
                pv == converted_pairs(self.entries@),
                i <= self.entries.len(),
                obj@ == entries_from_pairs(pv.subrange(0, i as int)),
            decreases self.entries.len() - i,
        {
            let v = self.entries[i].1.to_js_value();
            obj.set(self.entries[i].0.as_str(), v);
            assert(pv.subrange(0, i as int + 1).drop_last() =~= pv.subrange(0, i as int));
            i = i + 1;
        }
        assert(pv.subrange(0, self.entries.len() as int) =~= pv);
        JsValue::Object(obj)
    }
}

} // verus!
