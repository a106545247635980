//! What the serializer derivation writes: struct fields under their keys,
//! with an omit-or-null policy for absent values, and enum variants as string
//! tags or literal values.
use vstd::prelude::*;
use crate::casing::{camel_of, to_camel_case};
use crate::convert::ToJsValue;
use crate::value::{
    entry_lookup, entry_set, has_key, lemma_has_key_lookup, lemma_set_then_lookup, JsData,
    JsValue, ObjectExt,
};

verus! {

/// The model of a field's value as the serializer sees it.
pub enum SlotData {
    /// A field whose type is not optional: always written.
    Required(JsData),
    /// A field of optional type: written when present.
    Optional(Option<JsData>),
}

/// A field's converted value, ready to be written into an object.
#[derive(Debug)]
pub enum FieldSlot {
    Required(JsValue),
    Optional(Option<JsValue>),
}

impl FieldSlot {
    pub open spec fn view(&self) -> SlotData {
        match self {
            FieldSlot::Required(v) => SlotData::Required(v@),
            FieldSlot::Optional(Some(v)) => SlotData::Optional(Some(v@)),
            FieldSlot::Optional(None) => SlotData::Optional(None),
        }
    }
}

/// A field's serialized key together with its value.
#[derive(Debug)]
pub struct FieldEntry {
    pub key: String,
    pub slot: FieldSlot,
}

impl FieldEntry {
    pub open spec fn view(&self) -> (Seq<char>, SlotData) {
        (self.key@, self.slot@)
    }
}

pub open spec fn fields_view(fs: Seq<FieldEntry>) -> Seq<(Seq<char>, SlotData)> {
    fs.map_values(|f: FieldEntry| f@)
}

/// What a field contributes under its key: its value, `Null` for an absent
/// optional value under the null policy, nothing under the skip policy.
pub open spec fn slot_output(s: SlotData, skip_none: bool) -> Option<JsData> {
    match s {
        SlotData::Required(v) => Some(v),
        SlotData::Optional(Some(v)) => Some(v),
        SlotData::Optional(None) => if skip_none {
            None
        } else {
            Some(JsData::Null)
        },
    }
}

/// The object entries after writing one field.
pub open spec fn write_slot(
    es: Seq<(Seq<char>, JsData)>,
    k: Seq<char>,
    s: SlotData,
    skip_none: bool,
) -> Seq<(Seq<char>, JsData)> {
    match slot_output(s, skip_none) {
        Some(v) => entry_set(es, k, v),
        None => es,
    }
}

/// The entries of the object that a struct serializes to: a fresh object with
/// every field written in declaration order.
pub open spec fn struct_entries(fields: Seq<(Seq<char>, SlotData)>, skip_none: bool) -> Seq<
    (Seq<char>, JsData),
>
    decreases fields.len(),
{
    if fields.len() == 0 {
        Seq::empty()
    } else {
        write_slot(
            struct_entries(fields.drop_last(), skip_none),
            fields.last().0,
            fields.last().1,
            skip_none,
        )
    }
}

/// No two fields share a key.
pub open spec fn keys_distinct(fields: Seq<(Seq<char>, SlotData)>) -> bool {
    forall|i: int, j: int|
        0 <= i < fields.len() && 0 <= j < fields.len() && i != j ==> #[trigger] fields[i].0
            != #[trigger] fields[j].0
}

/// A serialized key: the explicit rename, else the camel-cased identifier.
pub open spec fn key_of(ident: Seq<char>, rename: Option<Seq<char>>) -> Seq<char> {
    match rename {
        Some(n) => n,
        None => camel_of(ident),
    }
}

pub open spec fn opt_view(s: Option<String>) -> Option<Seq<char>> {
    match s {
        Some(t) => Some(t@),
        None => None,
    }
}

/// The serialized key of a field or variant.
pub fn field_key(ident: &str, rename: &Option<String>) -> (r: String)
    ensures
        r@ == key_of(ident@, opt_view(*rename)),
{
    match rename {
        Some(n) => n.clone(),
        None => to_camel_case(ident),
    }
}

/// The slot of a field of optional type.
pub open spec fn optional_data<T: ToJsValue>(v: Option<T>) -> SlotData {
    SlotData::Optional(
        match v {
            Some(x) => Some(x.js_data()),
            None => None,
        },
    )
}

/// The value slot of a field of optional type.
pub fn optional<T: ToJsValue>(v: &Option<T>) -> (r: FieldSlot)
    ensures
        r@ == optional_data(*v),
{
    match v {
        Some(x) => FieldSlot::Optional(Some(x.to_js_value())),
        None => FieldSlot::Optional(None),
    }
}

/// The value slot of a field whose type is not optional.
pub fn required<T: ToJsValue>(v: &T) -> (r: FieldSlot)
    ensures
        r@ == SlotData::Required(v.js_data()),
{
    FieldSlot::Required(v.to_js_value())
}

/// Write one field into `obj` under `key`, following the absent-value policy.
pub fn write_field(obj: &mut ObjectExt, key: &str, slot: FieldSlot, skip_serializing_none: bool)
    ensures
        final(obj)@ == write_slot(old(obj)@, key@, slot@, skip_serializing_none),
{
    match slot {
        FieldSlot::Required(v) => obj.set(key, v),
        FieldSlot::Optional(Some(v)) => obj.set(key, v),
        FieldSlot::Optional(None) => {
            if !skip_serializing_none {
                obj.set(key, JsValue::Null);
            }
        },
    }
}

/// Serialize a struct: a fresh object with each field written in order.
pub fn serialize_struct(fields: Vec<FieldEntry>, skip_serializing_none: bool) -> (r: JsValue)
    ensures
        r@ == JsData::Object(struct_entries(fields_view(fields@), skip_serializing_none)),
{
    let ghost fv = fields_view(fields@);
    let mut obj = ObjectExt::new();
    let mut i: usize = 0;
    let n = fields.len();
    let mut rest = fields;
    while i < n
        invariant
            n == fv.len(),
            i <= n,
            rest.len() == n - i,
            forall|j: int| 0 <= j < n - i ==> (#[trigger] rest@[j])@ == fv[i + j],
            obj@ == struct_entries(fv.subrange(0, i as int), skip_serializing_none),
        decreases n - i,
    {
        let f = rest.remove(0);
        let ghost before = obj@;
        write_field(&mut obj, f.key.as_str(), f.slot, skip_serializing_none);
        proof {
            assert(fv.subrange(0, i as int + 1).drop_last() =~= fv.subrange(0, i as int));
        }
        i = i + 1;
    }
    assert(fv.subrange(0, n as int) =~= fv);
    JsValue::Object(obj)
}

proof fn lemma_struct_other_key(fields: Seq<(Seq<char>, SlotData)>, skip_none: bool, k: Seq<char>)
    requires
        forall|i: int| 0 <= i < fields.len() ==> #[trigger] fields[i].0 != k,
    ensures
        entry_lookup(struct_entries(fields, skip_none), k) is None,
    decreases fields.len(),
{
    if fields.len() > 0 {
        let d = fields.drop_last();
        assert(fields[fields.len() - 1].0 != k);
        assert forall|i: int| 0 <= i < d.len() implies #[trigger] d[i].0 != k by {
            assert(d[i] == fields[i]);
        }
        lemma_struct_other_key(d, skip_none, k);
        let prev = struct_entries(d, skip_none);
        if let Some(v) = slot_output(fields.last().1, skip_none) {
            lemma_set_then_lookup(prev, fields.last().0, v, k);
        }
    }
}

/// With distinct keys, the serialized object holds under each field's key
/// exactly what that field contributes.
pub proof fn lemma_struct_lookup(fields: Seq<(Seq<char>, SlotData)>, skip_none: bool, i: int)
    requires
        keys_distinct(fields),
        0 <= i < fields.len(),
    ensures
        entry_lookup(struct_entries(fields, skip_none), fields[i].0) == slot_output(
            fields[i].1,
            skip_none,
        ),
    decreases fields.len(),
{
    let d = fields.drop_last();
    let k = fields[i].0;
    let prev = struct_entries(d, skip_none);
    assert(keys_distinct(d)) by {
        assert forall|a: int, b: int|
            0 <= a < d.len() && 0 <= b < d.len() && a != b implies #[trigger] d[a].0
            != #[trigger] d[b].0 by {
            assert(d[a] == fields[a] && d[b] == fields[b]);
        }
    }
    if i == fields.len() - 1 {
        assert forall|j: int| 0 <= j < d.len() implies #[trigger] d[j].0 != k by {
            assert(d[j] == fields[j]);
        }
        lemma_struct_other_key(d, skip_none, k);
        if let Some(v) = slot_output(fields[i].1, skip_none) {
            lemma_set_then_lookup(prev, k, v, k);
        }
    } else {
        assert(d[i] == fields[i]);
        lemma_struct_lookup(d, skip_none, i);
        assert(fields.last().0 != k);
        if let Some(v) = slot_output(fields.last().1, skip_none) {
            lemma_set_then_lookup(prev, fields.last().0, v, k);
        }
    }
}

/// With distinct keys, an absent optional field is written as `Null` under
/// the null policy, and its key is left out under the skip policy.
pub proof fn law_absent_field(fields: Seq<(Seq<char>, SlotData)>, skip_none: bool, i: int)
    requires
        keys_distinct(fields),
        0 <= i < fields.len(),
        fields[i].1 == SlotData::Optional(None),
    ensures
        skip_none ==> !has_key(struct_entries(fields, skip_none), fields[i].0),
        !skip_none ==> entry_lookup(struct_entries(fields, skip_none), fields[i].0) == Some(
            JsData::Null,
        ),
{
    lemma_struct_lookup(fields, skip_none, i);
    lemma_has_key_lookup(struct_entries(fields, skip_none), fields[i].0);
}

/// A struct whose optional fields are all absent, as the zero-argument
/// constructor makes it, serializes under the skip policy to an empty object,
/// and, when its keys are distinct, under the null policy to an object
/// holding exactly its keys, each mapped to `Null`.
pub proof fn law_all_absent(fields: Seq<(Seq<char>, SlotData)>, skip_none: bool)
    requires
        forall|i: int| 0 <= i < fields.len() ==> #[trigger] fields[i].1 == SlotData::Optional(None),
    ensures
        skip_none ==> struct_entries(fields, skip_none) == Seq::<(Seq<char>, JsData)>::empty(),
        !skip_none && keys_distinct(fields) ==> forall|i: int|
            0 <= i < fields.len() ==> entry_lookup(struct_entries(fields, skip_none), #[trigger] fields[i].0)
                == Some(JsData::Null),
        !skip_none && keys_distinct(fields) ==> forall|k: Seq<char>|
            has_key(struct_entries(fields, skip_none), k) <==> exists|i: int|
                0 <= i < fields.len() && #[trigger] fields[i].0 == k,
    decreases fields.len(),
{
    let out = struct_entries(fields, skip_none);
    if skip_none {
        if fields.len() > 0 {
            let d = fields.drop_last();
            assert(fields[fields.len() - 1].1 == SlotData::Optional(None));
            assert forall|i: int| 0 <= i < d.len() implies #[trigger] d[i].1 == SlotData::Optional(
                None,
            ) by {
                assert(d[i] == fields[i]);
            }
            law_all_absent(d, skip_none);
        }
    } else if keys_distinct(fields) {
        assert forall|i: int| 0 <= i < fields.len() implies entry_lookup(
            out,
            #[trigger] fields[i].0,
        ) == Some(JsData::Null) by {
            lemma_struct_lookup(fields, skip_none, i);
        }
        assert forall|k: Seq<char>|
            has_key(out, k) <==> exists|i: int| 0 <= i < fields.len() && #[trigger] fields[i].0 == k by {
            lemma_has_key_lookup(out, k);
            if exists|i: int| 0 <= i < fields.len() && #[trigger] fields[i].0 == k {
                let i = choose|i: int| 0 <= i < fields.len() && #[trigger] fields[i].0 == k;
                lemma_struct_lookup(fields, skip_none, i);
            } else {
                lemma_struct_other_key(fields, skip_none, k);
            }
        }
    }
}

/// The fields after a setter stores `v` in field `i`.
pub open spec fn assign(fields: Seq<(Seq<char>, SlotData)>, i: int, v: JsData) -> Seq<
    (Seq<char>, SlotData),
> {
    fields.update(i, (fields[i].0, SlotData::Optional(Some(v))))
}

/// The fields after a chain of setters, applied in the order given.
pub open spec fn assign_all(fields: Seq<(Seq<char>, SlotData)>, sets: Seq<(int, JsData)>) -> Seq<
    (Seq<char>, SlotData),
>
    decreases sets.len(),
{
    if sets.len() == 0 {
        fields
    } else {
        assign(assign_all(fields, sets.drop_last()), sets.last().0, sets.last().1)
    }
}

/// Each setter of the chain targets a field of its own.
pub open spec fn targets_distinct(fields: Seq<(Seq<char>, SlotData)>, sets: Seq<(int, JsData)>) -> bool {
    &&& forall|m: int| 0 <= m < sets.len() ==> 0 <= #[trigger] sets[m].0 < fields.len()
    &&& forall|m: int, n: int|
        0 <= m < sets.len() && 0 <= n < sets.len() && m != n ==> #[trigger] sets[m].0
            != #[trigger] sets[n].0
}

proof fn lemma_assign_all(fields: Seq<(Seq<char>, SlotData)>, sets: Seq<(int, JsData)>)
    requires
        targets_distinct(fields, sets),
    ensures
        assign_all(fields, sets).len() == fields.len(),
        forall|m: int|
            0 <= m < sets.len() ==> assign_all(fields, sets)[#[trigger] sets[m].0] == (
                fields[sets[m].0].0,
                SlotData::Optional(Some(sets[m].1)),
            ),
        forall|x: int|
            0 <= x < fields.len() && (forall|m: int| 0 <= m < sets.len() ==> #[trigger] sets[m].0 != x)
                ==> #[trigger] assign_all(fields, sets)[x] == fields[x],
    decreases sets.len(),
{
    if sets.len() > 0 {
        let d = sets.drop_last();
        assert(targets_distinct(fields, d)) by {
            assert forall|m: int| 0 <= m < d.len() implies 0 <= #[trigger] d[m].0 < fields.len() by {
                assert(d[m] == sets[m]);
            }
            assert forall|m: int, n: int|
                0 <= m < d.len() && 0 <= n < d.len() && m != n implies #[trigger] d[m].0
                != #[trigger] d[n].0 by {
                assert(d[m] == sets[m] && d[n] == sets[n]);
            }
        }
        lemma_assign_all(fields, d);
        let prev = assign_all(fields, d);
        let last = sets[sets.len() - 1];
        assert forall|m: int| 0 <= m < sets.len() implies assign_all(fields, sets)[#[trigger] sets[m].0]
            == (fields[sets[m].0].0, SlotData::Optional(Some(sets[m].1))) by {
            if m < sets.len() - 1 {
                assert(d[m] == sets[m]);
                assert(sets[m].0 != last.0);
            } else {
                let x = last.0;
                if forall|n: int| 0 <= n < d.len() ==> #[trigger] d[n].0 != x {
                    assert(prev[x] == fields[x]);
                } else {
                    let n = choose|n: int| 0 <= n < d.len() && #[trigger] d[n].0 == x;
                    assert(d[n] == sets[n]);
                    assert(false);
                }
            }
        }
        assert forall|x: int|
            0 <= x < fields.len() && (forall|m: int| 0 <= m < sets.len() ==> #[trigger] sets[m].0 != x)
            implies #[trigger] assign_all(fields, sets)[x] == fields[x] by {
            assert(sets[sets.len() - 1].0 != x);
            assert forall|m: int| 0 <= m < d.len() implies #[trigger] d[m].0 != x by {
                assert(d[m] == sets[m]);
            }
        }
    }
}

/// Setters on distinct fields commute: two chains that make the same
/// assignments, in whatever order, leave the same fields and so serialize to
/// the same object, which holds every assigned value under its field's key.
pub proof fn law_setters_commute(
    fields: Seq<(Seq<char>, SlotData)>,
    skip_none: bool,
    sets1: Seq<(int, JsData)>,
    sets2: Seq<(int, JsData)>,
)
    requires
        keys_distinct(fields),
        targets_distinct(fields, sets1),
        targets_distinct(fields, sets2),
        sets1.to_set() == sets2.to_set(),
    ensures
        assign_all(fields, sets1) == assign_all(fields, sets2),
        struct_entries(assign_all(fields, sets1), skip_none) == struct_entries(
            assign_all(fields, sets2),
            skip_none,
        ),
        forall|m: int|
            0 <= m < sets1.len() ==> entry_lookup(
                struct_entries(assign_all(fields, sets1), skip_none),
                fields[#[trigger] sets1[m].0].0,
            ) == Some(sets1[m].1),
{
    lemma_assign_all(fields, sets1);
    lemma_assign_all(fields, sets2);
    let r1 = assign_all(fields, sets1);
    let r2 = assign_all(fields, sets2);
    assert forall|x: int| 0 <= x < fields.len() implies r1[x] == r2[x] by {
        if exists|m: int| 0 <= m < sets1.len() && #[trigger] sets1[m].0 == x {
            let m = choose|m: int| 0 <= m < sets1.len() && #[trigger] sets1[m].0 == x;
            assert(sets1.to_set().contains(sets1[m]));
            assert(sets2.to_set().contains(sets1[m]));
            let n = choose|n: int| 0 <= n < sets2.len() && sets2[n] == sets1[m];
            assert(sets2[n].0 == x);
        } else if exists|n: int| 0 <= n < sets2.len() && #[trigger] sets2[n].0 == x {
            let n = choose|n: int| 0 <= n < sets2.len() && #[trigger] sets2[n].0 == x;
            assert(sets2.to_set().contains(sets2[n]));
            assert(sets1.to_set().contains(sets2[n]));
            let m = choose|m: int| 0 <= m < sets1.len() && sets1[m] == sets2[n];
            assert(sets1[m].0 == x);
        }
    }
    assert(r1 =~= r2);
    assert(keys_distinct(r1)) by {
        assert forall|a: int, b: int|
            0 <= a < r1.len() && 0 <= b < r1.len() && a != b implies #[trigger] r1[a].0
            != #[trigger] r1[b].0 by {
            assert(r1[a].0 == fields[a].0) by {
                if exists|m: int| 0 <= m < sets1.len() && #[trigger] sets1[m].0 == a {
                    let m = choose|m: int| 0 <= m < sets1.len() && #[trigger] sets1[m].0 == a;
                }
            }
            assert(r1[b].0 == fields[b].0) by {
                if exists|m: int| 0 <= m < sets1.len() && #[trigger] sets1[m].0 == b {
                    let m = choose|m: int| 0 <= m < sets1.len() && #[trigger] sets1[m].0 == b;
                }
            }
        }
    }
    assert forall|m: int| 0 <= m < sets1.len() implies entry_lookup(
        struct_entries(r1, skip_none),
        fields[#[trigger] sets1[m].0].0,
    ) == Some(sets1[m].1) by {
        lemma_struct_lookup(r1, skip_none, sets1[m].0);
    }
}

/// Under the skip policy, a struct whose fields all start absent, as the
/// zero-argument constructor makes it, and then receive a chain of setters on
/// distinct fields, serializes to an object whose keys are exactly the keys of
/// the assigned fields.
pub proof fn law_assigned_keys_only(fields: Seq<(Seq<char>, SlotData)>, sets: Seq<(int, JsData)>)
    requires
        keys_distinct(fields),
        targets_distinct(fields, sets),
        forall|i: int| 0 <= i < fields.len() ==> #[trigger] fields[i].1 == SlotData::Optional(None),
    ensures
        forall|k: Seq<char>|
            has_key(struct_entries(assign_all(fields, sets), true), k) <==> exists|m: int|
                0 <= m < sets.len() && #[trigger] fields[sets[m].0].0 == k,
{
    lemma_assign_all(fields, sets);
    let r = assign_all(fields, sets);
    let out = struct_entries(r, true);
    assert forall|x: int| 0 <= x < r.len() implies #[trigger] r[x].0 == fields[x].0 by {
        if exists|m: int| 0 <= m < sets.len() && #[trigger] sets[m].0 == x {
            let m = choose|m: int| 0 <= m < sets.len() && #[trigger] sets[m].0 == x;
        }
    }
    assert(keys_distinct(r)) by {
        assert forall|a: int, b: int|
            0 <= a < r.len() && 0 <= b < r.len() && a != b implies #[trigger] r[a].0
            != #[trigger] r[b].0 by {
            assert(r[a].0 == fields[a].0 && r[b].0 == fields[b].0);
        }
    }
    assert forall|k: Seq<char>|
        has_key(out, k) <==> exists|m: int| 0 <= m < sets.len() && #[trigger] fields[sets[m].0].0 == k by {
        lemma_has_key_lookup(out, k);
        if exists|m: int| 0 <= m < sets.len() && #[trigger] fields[sets[m].0].0 == k {
            let m = choose|m: int| 0 <= m < sets.len() && #[trigger] fields[sets[m].0].0 == k;
            lemma_struct_lookup(r, true, sets[m].0);
        } else if exists|i: int| 0 <= i < r.len() && #[trigger] r[i].0 == k {
            let i = choose|i: int| 0 <= i < r.len() && #[trigger] r[i].0 == k;
            if exists|m: int| 0 <= m < sets.len() && #[trigger] sets[m].0 == i {
                let m = choose|m: int| 0 <= m < sets.len() && #[trigger] sets[m].0 == i;
                assert(fields[sets[m].0].0 == k);
            }
            assert(r[i] == fields[i]);
            lemma_struct_lookup(r, true, i);
        } else {
            assert forall|i: int| 0 <= i < r.len() implies #[trigger] r[i].0 != k by {}
            lemma_struct_other_key(r, true, k);
        }
    }
}

/// What a variant serializes to in place of a string tag.
#[derive(Clone, Copy, PartialEq, Eq, Debug)]
pub enum AltValue {
    Null,
    Undefined,
    True,
    False,
}

pub open spec fn alt_data(a: AltValue) -> JsData {
    match a {
        AltValue::Null => JsData::Null,
        AltValue::Undefined => JsData::Undefined,
        AltValue::True => JsData::Bool(true),
        AltValue::False => JsData::Bool(false),
    }
}

/// What a fieldless variant serializes to: its literal override when it has
/// one, else its key as a string.
pub open spec fn variant_data(
    ident: Seq<char>,
    rename: Option<Seq<char>>,
    serialize_as: Option<AltValue>,
) -> JsData {
    match serialize_as {
        Some(a) => alt_data(a),
        None => JsData::Str(key_of(ident, rename)),
    }
}

/// Serialize a fieldless enum variant.
pub fn serialize_variant(ident: &str, rename: &Option<String>, serialize_as: &Option<AltValue>) -> (r: JsValue)
    ensures
        r@ == variant_data(ident@, opt_view(*rename), *serialize_as),
        serialize_as.is_none() && rename.is_none() ==> r@ == JsData::Str(camel_of(ident@)),
        serialize_as matches Some(AltValue::True) ==> r@ == JsData::Bool(true),
        serialize_as matches Some(AltValue::False) ==> r@ == JsData::Bool(false),
        serialize_as matches Some(AltValue::Null) ==> r@ == JsData::Null,
        serialize_as matches Some(AltValue::Undefined) ==> r@ == JsData::Undefined,
{
    match serialize_as {
        Some(AltValue::Null) => JsValue::Null,
        Some(AltValue::Undefined) => JsValue::Undefined,
        Some(AltValue::True) => JsValue::Bool(true),
        Some(AltValue::False) => JsValue::Bool(false),
        None => JsValue::Str(field_key(ident, rename)),
    }
}

} // verus!
