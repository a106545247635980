//! Conversion of host values into dynamic values.
use vstd::prelude::*;
use crate::value::{JsData, JsValue, ObjectExt};

verus! {

/// A host value that converts itself into a dynamic value of the runtime.
pub trait ToJsValue {
    /// The dynamic value that `self` converts into.
    spec fn js_data(&self) -> JsData;

    /// Convert `self`, leaving it untouched.
    fn to_js_value(&self) -> (r: JsValue)
        ensures
            r@ == self.js_data(),
    ;
}

impl ToJsValue for String {
    open spec fn js_data(&self) -> JsData {
        JsData::Str(self@)
    }

    fn to_js_value(&self) -> (r: JsValue) {
        JsValue::Str(self.clone())
    }
}

impl<'a> ToJsValue for &'a str {
    open spec fn js_data(&self) -> JsData {
        JsData::Str((*self)@)
    }

    fn to_js_value(&self) -> (r: JsValue) {
        JsValue::Str((*self).to_owned())
    }
}

impl ToJsValue for bool {
    open spec fn js_data(&self) -> JsData {
        JsData::Bool(*self)
    }

    fn to_js_value(&self) -> (r: JsValue) {
        JsValue::Bool(*self)
    }
}

impl ToJsValue for u8 {
    open spec fn js_data(&self) -> JsData {
        JsData::Number(*self as int)
    }

    fn to_js_value(&self) -> (r: JsValue) {
        JsValue::Number(*self as i128)
    }
}

impl ToJsValue for u16 {
    open spec fn js_data(&self) -> JsData {
        JsData::Number(*self as int)
    }

    fn to_js_value(&self) -> (r: JsValue) {
        JsValue::Number(*self as i128)
    }
}

impl ToJsValue for u32 {
    open spec fn js_data(&self) -> JsData {
        JsData::Number(*self as int)
    }

    fn to_js_value(&self) -> (r: JsValue) {
        JsValue::Number(*self as i128)
    }
}

impl ToJsValue for u64 {
    open spec fn js_data(&self) -> JsData {
        JsData::Number(*self as int)
    }

    fn to_js_value(&self) -> (r: JsValue) {
        JsValue::Number(*self as i128)
    }
}

impl ToJsValue for usize {
    open spec fn js_data(&self) -> JsData {
        JsData::Number(*self as int)
    }

    fn to_js_value(&self) -> (r: JsValue) {
        JsValue::Number(*self as i128)
    }
}

impl ToJsValue for i8 {
    open spec fn js_data(&self) -> JsData {
        JsData::Number(*self as int)
    }

    fn to_js_value(&self) -> (r: JsValue) {
        JsValue::Number(*self as i128)
    }
}

impl ToJsValue for i16 {
    open spec fn js_data(&self) -> JsData {
        JsData::Number(*self as int)
    }

    fn to_js_value(&self) -> (r: JsValue) {
        JsValue::Number(*self as i128)
    }
}

impl ToJsValue for i32 {
    open spec fn js_data(&self) -> JsData {
        JsData::Number(*self as int)
    }

    fn to_js_value(&self) -> (r: JsValue) {
        JsValue::Number(*self as i128)
    }
}

impl ToJsValue for i64 {
    open spec fn js_data(&self) -> JsData {
        JsData::Number(*self as int)
    }

    fn to_js_value(&self) -> (r: JsValue) {
        JsValue::Number(*self as i128)
    }
}

impl ToJsValue for isize {
    open spec fn js_data(&self) -> JsData {
        JsData::Number(*self as int)
    }

    fn to_js_value(&self) -> (r: JsValue) {
        JsValue::Number(*self as i128)
    }
}

/// The unit value stands for "no value".
impl ToJsValue for () {
    open spec fn js_data(&self) -> JsData {
        JsData::Undefined
    }

    fn to_js_value(&self) -> (r: JsValue) {
        JsValue::Undefined
    }
}

impl ToJsValue for JsValue {
    open spec fn js_data(&self) -> JsData {
        self@
    }

    fn to_js_value(&self) -> (r: JsValue) {
        self.deep_clone()
    }
}

impl ToJsValue for ObjectExt {
    open spec fn js_data(&self) -> JsData {
        JsData::Object(self@)
    }

    fn to_js_value(&self) -> (r: JsValue) {
        JsValue::Object(self.deep_clone())
    }
}

/// A present value converts as itself; an absent one becomes `Null`.
impl<T: ToJsValue> ToJsValue for Option<T> {
    open spec fn js_data(&self) -> JsData {
        match self {
            Some(v) => v.js_data(),
            None => JsData::Null,
        }
    }

    fn to_js_value(&self) -> (r: JsValue) {
        match self {
            Some(v) => v.to_js_value(),
            None => JsValue::Null,
        }
    }
}

/// The elements of a sequence as an array, in order.
pub open spec fn array_of<T: ToJsValue>(s: Seq<T>) -> JsData {
    JsData::Array(s.map_values(|x: T| x.js_data()))
}

impl<T: ToJsValue> ToJsValue for Vec<T> {
    open spec fn js_data(&self) -> JsData {
        array_of(self@)
    }

    fn to_js_value(&self) -> (r: JsValue) {
        let mut out: Vec<JsValue> = Vec::new();
        let mut i: usize = 0;
        while i < self.len()
            invariant
                i <= self.len(),
                out.len() == i,
                forall|j: int| 0 <= j < i ==> (#[trigger] out[j])@ == self[j].js_data(),
            decreases self.len() - i,
        {
            out.push(self[i].to_js_value());
            i = i + 1;
        }
        let r = JsValue::Array(out);
        assert(r@ == self.js_data()) by {
            if let JsData::Array(a) = r@ {
                assert(a =~= self@.map_values(|x: T| x.js_data()));
            }
        }
        r
    }
}

} // verus!
