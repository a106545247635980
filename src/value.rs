//! The dynamic value model of the embedded JavaScript runtime.
use vstd::prelude::*;

verus! {

/// The mathematical model of a dynamic value.
pub enum JsData {
    Undefined,
    Null,
    Bool(bool),
    Number(int),
    Str(Seq<char>),
    Array(Seq<JsData>),
    /// Insertion-ordered entries of an object.
    Object(Seq<(Seq<char>, JsData)>),
    Function(u64),
}

/// A dynamic value of the embedded runtime.
///
/// Numbers are integral: every numeric host type converts exactly into
/// `Number`. A `Function` is a handle to a callable owned by the runtime.
#[derive(Debug, PartialEq)]
pub enum JsValue {
    Undefined,
    Null,
    Bool(bool),
    Number(i128),
    Str(String),
    Array(Vec<JsValue>),
    Object(ObjectExt),
    Function(u64),
}

/// A string-keyed, insertion-ordered dynamic object.
#[derive(Debug, PartialEq)]
pub struct ObjectExt {
    entries: Vec<(String, JsValue)>,
}

impl JsValue {
    pub open spec fn view(&self) -> JsData
        decreases self,
    {
        match self {
            JsValue::Undefined => JsData::Undefined,
            JsValue::Null => JsData::Null,
            JsValue::Bool(b) => JsData::Bool(*b),
            JsValue::Number(n) => JsData::Number(*n as int),
            JsValue::Str(s) => JsData::Str(s@),
            JsValue::Array(v) => JsData::Array(
                Seq::new(v.len() as nat, |i: int| if 0 <= i < v.len() { v[i].view() } else { JsData::Undefined }),
            ),
            JsValue::Object(o) => JsData::Object(o.view()),
            JsValue::Function(h) => JsData::Function(*h),
        }
    }
}

impl ObjectExt {
    pub closed spec fn view(&self) -> Seq<(Seq<char>, JsData)>
        decreases self,
    {
        Seq::new(
            self.entries.len() as nat,
            |i: int|
                if 0 <= i < self.entries.len() {
                    (self.entries[i].0@, self.entries[i].1.view())
                } else {
                    (Seq::empty(), JsData::Undefined)
                },
        )
    }
}


/// The index of the last entry under `k`, or -1 when there is none.
pub open spec fn key_index(es: Seq<(Seq<char>, JsData)>, k: Seq<char>) -> int
    decreases es.len(),
{
    if es.len() == 0 {
        -1
    } else if es.last().0 == k {
        es.len() - 1
    } else {
        key_index(es.drop_last(), k)
    }
}

/// What an object holds under `k`: the value of its last entry with that key.
pub open spec fn entry_lookup(es: Seq<(Seq<char>, JsData)>, k: Seq<char>) -> Option<JsData> {
    let i = key_index(es, k);
    if 0 <= i < es.len() {
        Some(es[i].1)
    } else {
        None
    }
}

/// The entries after writing `v` under `k`: an existing slot is overwritten
/// in place, otherwise the entry is appended.
pub open spec fn entry_set(es: Seq<(Seq<char>, JsData)>, k: Seq<char>, v: JsData) -> Seq<
    (Seq<char>, JsData),
> {
    let i = key_index(es, k);
    if 0 <= i < es.len() {
        es.update(i, (k, v))
    } else {
        es.push((k, v))
    }
}

/// The keys of the entries, in insertion order.
pub open spec fn entry_keys(es: Seq<(Seq<char>, JsData)>) -> Seq<Seq<char>> {
    es.map_values(|e: (Seq<char>, JsData)| e.0)
}

/// The values of the entries, in insertion order.
pub open spec fn entry_values(es: Seq<(Seq<char>, JsData)>) -> Seq<JsData> {
    es.map_values(|e: (Seq<char>, JsData)| e.1)
}

pub open spec fn has_key(es: Seq<(Seq<char>, JsData)>, k: Seq<char>) -> bool {
    exists|i: int| 0 <= i < es.len() && #[trigger] es[i].0 == k
}

/// What reading `k` yields: the stored value, or `Undefined` when absent.
pub open spec fn entry_get(es: Seq<(Seq<char>, JsData)>, k: Seq<char>) -> JsData {
    match entry_lookup(es, k) {
        Some(v) => v,
        None => JsData::Undefined,
    }
}

proof fn lemma_key_index(es: Seq<(Seq<char>, JsData)>, k: Seq<char>)
    ensures
        -1 <= key_index(es, k) < es.len(),
        key_index(es, k) >= 0 ==> es[key_index(es, k)].0 == k,
        forall|j: int| key_index(es, k) < j < es.len() ==> #[trigger] es[j].0 != k,
    decreases es.len(),
{
    if es.len() > 0 && es.last().0 != k {
        lemma_key_index(es.drop_last(), k);
        assert forall|j: int| key_index(es, k) < j < es.len() implies #[trigger] es[j].0 != k by {
            if j < es.len() - 1 {
                assert(es.drop_last()[j] == es[j]);
            }
        }
    }
}

proof fn lemma_lookup_at_last(es: Seq<(Seq<char>, JsData)>, k: Seq<char>, i: int)
    requires
        0 <= i < es.len(),
        es[i].0 == k,
        forall|j: int| i < j < es.len() ==> #[trigger] es[j].0 != k,
    ensures
        key_index(es, k) == i,
{
    lemma_key_index(es, k);
    if key_index(es, k) < i {
        assert(es[i].0 != k);
    }
}

proof fn lemma_lookup_absent(es: Seq<(Seq<char>, JsData)>, k: Seq<char>)
    requires
        forall|j: int| 0 <= j < es.len() ==> #[trigger] es[j].0 != k,
    ensures
        key_index(es, k) == -1,
{
    lemma_key_index(es, k);
}

/// After a write, the key holds the written value and every other key keeps
/// what it held.
pub proof fn lemma_set_then_lookup(es: Seq<(Seq<char>, JsData)>, k: Seq<char>, v: JsData, k2: Seq<char>)
    ensures
        entry_lookup(entry_set(es, k, v), k) == Some(v),
        k2 != k ==> entry_lookup(entry_set(es, k, v), k2) == entry_lookup(es, k2),
{
    let r = entry_set(es, k, v);
    lemma_key_index(es, k);
    lemma_key_index(es, k2);
    let i = key_index(es, k);
    let n = if 0 <= i { i } else { es.len() as int };
    assert(r[n].0 == k);
    assert forall|j: int| n < j < r.len() implies #[trigger] r[j].0 != k by {
        assert(r[j] == es[j]);
    }
    lemma_lookup_at_last(r, k, n);
    if k2 != k {
        let i2 = key_index(es, k2);
        if i2 >= 0 {
            assert(r[i2] == es[i2]);
            assert forall|j: int| i2 < j < r.len() implies #[trigger] r[j].0 != k2 by {
                if j != n {
                    assert(r[j] == es[j]);
                }
            }
            lemma_lookup_at_last(r, k2, i2);
        } else {
            assert forall|j: int| 0 <= j < r.len() implies #[trigger] r[j].0 != k2 by {
                if j != n {
                    assert(r[j] == es[j]);
                }
            }
            lemma_lookup_absent(r, k2);
        }
    }
}

/// A key is present exactly when a lookup finds it.
pub proof fn lemma_has_key_lookup(es: Seq<(Seq<char>, JsData)>, k: Seq<char>)
    ensures
        has_key(es, k) <==> entry_lookup(es, k) is Some,
{
    lemma_key_index(es, k);
    if has_key(es, k) {
        let i = choose|i: int| 0 <= i < es.len() && #[trigger] es[i].0 == k;
        assert(key_index(es, k) >= i);
    }
    if key_index(es, k) >= 0 {
        assert(es[key_index(es, k)].0 == k);
    }
}

impl JsValue {
    /// A copy of the value, down to every nested array and object.
    pub fn deep_clone(&self) -> (r: JsValue)
        ensures
            r@ == self@,
        decreases self,
    {
        match self {
            JsValue::Undefined => JsValue::Undefined,
            JsValue::Null => JsValue::Null,
            JsValue::Bool(b) => JsValue::Bool(*b),
            JsValue::Number(n) => JsValue::Number(*n),
            JsValue::Str(s) => JsValue::Str(s.clone()),
            JsValue::Array(v) => {
                let out = clone_values(v);
                let r = JsValue::Array(out);
                assert(r@ == self@) by {
                    if let JsData::Array(a) = r@ {
                        if let JsData::Array(b) = self@ {
                            assert(a =~= b);
                        }
                    }
                }
                r
            },
            JsValue::Object(o) => JsValue::Object(o.deep_clone()),
            JsValue::Function(h) => JsValue::Function(*h),
        }
    }
}

fn clone_values(v: &Vec<JsValue>) -> (out: Vec<JsValue>)
    ensures
        out.len() == v.len(),
        forall|j: int| 0 <= j < v.len() ==> (#[trigger] out[j])@ == v[j]@,
    decreases v,
{
    let mut out: Vec<JsValue> = Vec::new();
    let mut i: usize = 0;
    while i < v.len()
        invariant
            i <= v.len(),
            out.len() == i,
            forall|j: int| 0 <= j < i ==> (#[trigger] out[j])@ == v[j]@,
        decreases v.len() - i,
    {
        proof {
            vstd::std_specs::vec::axiom_vec_index_decreases(*v, i as int);
        }
        let c = v[i].deep_clone();
        out.push(c);
        i = i + 1;
    }
    out
}

impl ObjectExt {
    /// A fresh object without entries.
    pub fn new() -> (r: ObjectExt)
        ensures
            r@ == Seq::<(Seq<char>, JsData)>::empty(),
    {
        let r = ObjectExt { entries: Vec::new() };
        assert(r@ =~= Seq::<(Seq<char>, JsData)>::empty());
        r
    }

    /// A copy of the object, down to every nested value.
    pub fn deep_clone(&self) -> (r: ObjectExt)
        ensures
            r@ == self@,
        decreases self,
    {
        let mut out: Vec<(String, JsValue)> = Vec::new();
        let mut i: usize = 0;
        while i < self.entries.len()
            invariant
                i <= self.entries.len(),
                out.len() == i,
                forall|j: int|
                    0 <= j < i ==> (#[trigger] out[j]).0@ == self.entries[j].0@ && out[j].1@
                        == self.entries[j].1@,
            decreases self.entries.len() - i,
        {
            proof {
                vstd::std_specs::vec::axiom_vec_index_decreases(self.entries, i as int);
            }
            let k = self.entries[i].0.clone();
            let v = self.entries[i].1.deep_clone();
            out.push((k, v));
            i = i + 1;
        }
        let r = ObjectExt { entries: out };
        assert(r@ =~= self@);
        r
    }

    /// The index of the last entry under `key`.
    fn find(&self, key: &String) -> (r: Option<usize>)
        ensures
            match r {
                Some(i) => i < self.entries.len() && self@[i as int].0 == key@ && forall|j: int|
                    i < j < self@.len() ==> #[trigger] self@[j].0 != key@,
                None => forall|j: int| 0 <= j < self@.len() ==> #[trigger] self@[j].0 != key@,
            },
    {
        let mut i: usize = self.entries.len();
        while i > 0
            invariant
                i <= self.entries.len(),
                self@.len() == self.entries.len(),
                forall|j: int| i <= j < self@.len() ==> #[trigger] self@[j].0 != key@,
            decreases i,
        {
            if self.entries[i - 1].0 == *key {
                return Some(i - 1);
            }
            i = i - 1;
        }
        None
    }

    /// Write `value` under `key`, overwriting an existing entry in place.
    pub fn set(&mut self, key: &str, value: JsValue)
        ensures
            final(self)@ == entry_set(old(self)@, key@, value@),
    {
        let k = key.to_owned();
        let ghost vd = value@;
        match self.find(&k) {
            Some(i) => {
                proof {
                    lemma_lookup_at_last(self@, key@, i as int);
                }
                self.entries.set(i, (k, value));
                assert(self@ =~= entry_set(old(self)@, key@, vd));
            },
            None => {
                proof {
                    lemma_lookup_absent(self@, key@);
                }
                self.entries.push((k, value));
                assert(self@ =~= entry_set(old(self)@, key@, vd));
            },
        }
    }

    /// The entry stored under `key`, if any.
    pub fn get_ref(&self, key: &str) -> (r: Option<&JsValue>)
        ensures
            match r {
                Some(v) => entry_lookup(self@, key@) == Some(v@),
                None => entry_lookup(self@, key@) is None,
            },
    {
        let k = key.to_owned();
        match self.find(&k) {
            Some(i) => {
                proof {
                    lemma_lookup_at_last(self@, key@, i as int);
                }
                Some(&self.entries[i].1)
            },
            None => {
                proof {
                    lemma_lookup_absent(self@, key@);
                }
                None
            },
        }
    }

    /// The value stored under `key`, or `Undefined` when there is none.
    pub fn get(&self, key: &str) -> (r: JsValue)
        ensures
            r@ == entry_get(self@, key@),
    {
        match self.get_ref(key) {
            Some(v) => v.deep_clone(),
            None => JsValue::Undefined,
        }
    }

    /// Whether the object holds an entry under `key`.
    pub fn has_own_property(&self, key: &str) -> (r: bool)
        ensures
            r == has_key(self@, key@),
    {
        proof {
            lemma_has_key_lookup(self@, key@);
        }
        self.get_ref(key).is_some()
    }

    /// The string stored under `key`; `None` when the entry is absent or not a
    /// string.
    pub fn get_string(&self, key: &str) -> (r: Option<String>)
        ensures
            match entry_lookup(self@, key@) {
                Some(JsData::Str(s)) => r matches Some(t) && t@ == s,
                _ => r is None,
            },
    {
        match self.get_ref(key) {
            Some(JsValue::Str(s)) => Some(s.clone()),
            _ => None,
        }
    }

    /// The string stored under `key`, which must be there.
    pub fn get_string_unchecked(&self, key: &str) -> (r: String)
        requires
            entry_lookup(self@, key@) matches Some(JsData::Str(_)),
        ensures
            entry_lookup(self@, key@) == Some(JsData::Str(r@)),
    {
        match self.get_ref(key) {
            Some(JsValue::Str(s)) => s.clone(),
            _ => String::new(),
        }
    }

    /// The number stored under `key`; `None` when the entry is absent or not a
    /// number.
    pub fn get_number(&self, key: &str) -> (r: Option<i128>)
        ensures
            match entry_lookup(self@, key@) {
                Some(JsData::Number(n)) => r matches Some(x) && x as int == n,
                _ => r is None,
            },
    {
        match self.get_ref(key) {
            Some(JsValue::Number(n)) => Some(*n),
            _ => None,
        }
    }

    /// The number stored under `key`, which must be there.
    pub fn get_number_unchecked(&self, key: &str) -> (r: i128)
        requires
            entry_lookup(self@, key@) matches Some(JsData::Number(_)),
        ensures
            entry_lookup(self@, key@) == Some(JsData::Number(r as int)),
    {
        match self.get_ref(key) {
            Some(JsValue::Number(n)) => *n,
            _ => 0,
        }
    }

    /// The entries, in insertion order.
    pub fn entries(&self) -> (r: Vec<(String, JsValue)>)
        ensures
            r@.len() == self@.len(),
            forall|i: int|
                0 <= i < r@.len() ==> (#[trigger] r@[i]).0@ == self@[i].0 && r@[i].1@ == self@[i].1,
    {
        let c = self.deep_clone();
        c.entries
    }

    /// The keys, in insertion order.
    pub fn keys(&self) -> (r: Vec<String>)
        ensures
            r@.map_values(|s: String| s@) == entry_keys(self@),
    {
        let mut out: Vec<String> = Vec::new();
        let mut i: usize = 0;
        while i < self.entries.len()
            invariant
                i <= self.entries.len(),
                self@.len() == self.entries.len(),
                out.len() == i,
                forall|j: int| 0 <= j < i ==> (#[trigger] out[j])@ == self@[j].0,
            decreases self.entries.len() - i,
        {
            out.push(self.entries[i].0.clone());
            i = i + 1;
        }
        assert(out@.map_values(|s: String| s@) =~= entry_keys(self@));
        out
    }

    /// The values, in insertion order.
    pub fn values(&self) -> (r: Vec<JsValue>)
        ensures
            r@.len() == self@.len(),
            forall|i: int| 0 <= i < r@.len() ==> (#[trigger] r@[i])@ == self@[i].1,
    {
        let mut out: Vec<JsValue> = Vec::new();
        let mut i: usize = 0;
        while i < self.entries.len()
            invariant
                i <= self.entries.len(),
                self@.len() == self.entries.len(),
                out.len() == i,
                forall|j: int| 0 <= j < i ==> (#[trigger] out[j])@ == self@[j].1,
            decreases self.entries.len() - i,
        {
            out.push(self.entries[i].1.deep_clone());
            i = i + 1;
        }
        out
    }
}

impl Default for ObjectExt {
    fn default() -> (r: ObjectExt)
        ensures
            r@ == Seq::<(Seq<char>, JsData)>::empty(),
    {
        ObjectExt::new()
    }
}

} // verus!
