//! The library's representation of a JSON tree, and its mathematical model.
//!
//! A registry response arrives as loosely-typed JSON. The caller (outside the
//! library) tokenizes the text and hands over a [`JsonValue`]; every later
//! projection into typed records is pure and is specified over the ghost
//! model [`Json`], in which strings are `Seq<char>` and arrays are `Seq`s.

use vstd::prelude::*;

verus! {

/// A JSON value, held without upfront shape validation.
///
/// JSON numbers that are not unsigned 64-bit integers are kept only as the
/// marker `OtherNumber`: no field this library decodes may hold one, so its
/// exact value is never consulted.
#[derive(Debug, PartialEq)]
pub enum JsonValue {
    Null,
    Bool(bool),
    UInt(u64),
    OtherNumber,
    Str(String),
    Array(Vec<JsonValue>),
    Object(Vec<(String, JsonValue)>),
}

/// The mathematical model of a [`JsonValue`].
#[verifier::ext_equal]
pub enum Json {
    Null,
    Bool(bool),
    UInt(u64),
    OtherNumber,
    Str(Seq<char>),
    Array(Seq<Json>),
    Object(Seq<(Seq<char>, Json)>),
}

/// The models of the elements of a JSON array.
pub open spec fn elems_view(a: Seq<JsonValue>) -> Seq<Json>
    decreases a,
{
    Seq::new(a.len(), |i: int| if 0 <= i < a.len() { jview(a[i]) } else { Json::Null })
}

/// The models of the key/value entries of a JSON object.
pub open spec fn entries_view(e: Seq<(String, JsonValue)>) -> Seq<(Seq<char>, Json)>
    decreases e,
{
    Seq::new(
        e.len(),
        |i: int|
            if 0 <= i < e.len() {
                (e[i].0@, jview(e[i].1))
            } else {
                (Seq::<char>::empty(), Json::Null)
            },
    )
}

/// The model of a JSON value: strings become `Seq<char>`, vectors become `Seq`s.
pub open spec fn jview(v: JsonValue) -> Json
    decreases v,
{
    match v {
        JsonValue::Null => Json::Null,
        JsonValue::Bool(b) => Json::Bool(b),
        JsonValue::UInt(n) => Json::UInt(n),
        JsonValue::OtherNumber => Json::OtherNumber,
        JsonValue::Str(s) => Json::Str(s@),
        JsonValue::Array(a) => Json::Array(elems_view(a@)),
        JsonValue::Object(e) => Json::Object(entries_view(e@)),
    }
}

impl View for JsonValue {
    type V = Json;

    open spec fn view(&self) -> Json {
        jview(*self)
    }
}

/// Key lookup among an object's entries, starting at entry `i`.
pub open spec fn obj_lookup_from(
    entries: Seq<(Seq<char>, Json)>,
    key: Seq<char>,
    i: int,
) -> Option<Json>
    decreases entries.len() - i,
{
    if i < 0 || i >= entries.len() {
        None
    } else if entries[i].0 == key {
        Some(entries[i].1)
    } else {
        obj_lookup_from(entries, key, i + 1)
    }
}

/// Key lookup among an object's entries: the value of the first entry whose
/// key matches, or `None` when no entry matches.
pub open spec fn obj_lookup(entries: Seq<(Seq<char>, Json)>, key: Seq<char>) -> Option<Json> {
    obj_lookup_from(entries, key, 0)
}

/// Looks a key up among an object's entries and hands back a borrow of the
/// first matching entry's value.
pub(crate) fn lookup_entry<'a>(entries: &'a Vec<(String, JsonValue)>, key: &String) -> (r: Option<&'a JsonValue>)
    ensures
        match r {
            Some(v) => obj_lookup(entries_view(entries@), key@) == Some(v@),
            None => obj_lookup(entries_view(entries@), key@) is None,
        },
{
    let ghost ev = entries_view(entries@);
    let mut i: usize = 0;
    while i < entries.len()
        invariant
            i <= entries.len(),
            ev == entries_view(entries@),
            obj_lookup_from(ev, key@, 0) == obj_lookup_from(ev, key@, i as int),
        decreases entries.len() - i,
    {
        let p: &(String, JsonValue) = &entries[i];
        if p.0 == *key {
            return Some(&p.1);
        }
        i = i + 1;
    }
    None
}

/// The value a required unsigned-integer field decodes to, or `None` when the
/// field is missing or not an unsigned 64-bit integer.
pub open spec fn u64_field(entries: Seq<(Seq<char>, Json)>, key: Seq<char>) -> Option<u64> {
    match obj_lookup(entries, key) {
        Some(Json::UInt(n)) => Some(n),
        _ => None,
    }
}

/// The value a required string field decodes to, or `None` when the field is
/// missing or not a string.
pub open spec fn string_field(entries: Seq<(Seq<char>, Json)>, key: Seq<char>) -> Option<
    Seq<char>,
> {
    match obj_lookup(entries, key) {
        Some(Json::Str(s)) => Some(s),
        _ => None,
    }
}

/// The value a required boolean field decodes to, or `None` when the field is
/// missing or not a boolean.
pub open spec fn bool_field(entries: Seq<(Seq<char>, Json)>, key: Seq<char>) -> Option<bool> {
    match obj_lookup(entries, key) {
        Some(Json::Bool(b)) => Some(b),
        _ => None,
    }
}

/// The value an optional unsigned-integer field decodes to: the outer `None`
/// marks a malformed field, `Some(None)` a field that is missing or null.
pub open spec fn opt_u64_field(entries: Seq<(Seq<char>, Json)>, key: Seq<char>) -> Option<
    Option<u64>,
> {
    match obj_lookup(entries, key) {
        None => Some(None),
        Some(Json::Null) => Some(None),
        Some(Json::UInt(n)) => Some(Some(n)),
        Some(_) => None,
    }
}

/// The value an optional string field decodes to: the outer `None` marks a
/// malformed field, `Some(None)` a field that is missing or null.
pub open spec fn opt_string_field(entries: Seq<(Seq<char>, Json)>, key: Seq<char>) -> Option<
    Option<Seq<char>>,
> {
    match obj_lookup(entries, key) {
        None => Some(None),
        Some(Json::Null) => Some(None),
        Some(Json::Str(s)) => Some(Some(s)),
        Some(_) => None,
    }
}

/// The model of an optional owned string.
pub open spec fn opt_string_view(o: Option<String>) -> Option<Seq<char>> {
    match o {
        Some(s) => Some(s@),
        None => None,
    }
}

/// The model of an optional JSON value.
pub open spec fn opt_json_view(o: Option<JsonValue>) -> Option<Json> {
    match o {
        Some(v) => Some(jview(v)),
        None => None,
    }
}

/// The value an optional field of arbitrary shape decodes to: `None` when the
/// field is missing or null, the field's value otherwise. Never malformed.
pub open spec fn opt_value_field(entries: Seq<(Seq<char>, Json)>, key: Seq<char>) -> Option<Json> {
    match obj_lookup(entries, key) {
        None => None,
        Some(Json::Null) => None,
        Some(j) => Some(j),
    }
}

/// The value an optional array field decodes to: the outer `None` marks a
/// malformed field, `Some(None)` a field that is missing or null.
pub open spec fn opt_array_field(entries: Seq<(Seq<char>, Json)>, key: Seq<char>) -> Option<
    Option<Seq<Json>>,
> {
    match obj_lookup(entries, key) {
        None => Some(None),
        Some(Json::Null) => Some(None),
        Some(Json::Array(a)) => Some(Some(a)),
        Some(_) => None,
    }
}

/// The models of a sequence of owned strings.
pub open spec fn string_views(s: Seq<String>) -> Seq<Seq<char>> {
    Seq::new(s.len(), |i: int| if 0 <= i < s.len() { s[i]@ } else { Seq::<char>::empty() })
}

/// The keys of an object's entries, in order.
pub open spec fn obj_keys(entries: Seq<(Seq<char>, Json)>) -> Seq<Seq<char>> {
    Seq::new(
        entries.len(),
        |i: int| if 0 <= i < entries.len() { entries[i].0 } else { Seq::<char>::empty() },
    )
}

/// Decodes a required unsigned-integer field of an object.
pub(crate) fn get_u64_field(entries: &Vec<(String, JsonValue)>, key: &String) -> (r: Option<u64>)
    ensures
        r == u64_field(entries_view(entries@), key@),
{
    match lookup_entry(entries, key) {
        Some(JsonValue::UInt(n)) => Some(*n),
        _ => None,
    }
}

/// Decodes a required string field of an object.
pub(crate) fn get_string_field(entries: &Vec<(String, JsonValue)>, key: &String) -> (r: Option<
    String,
>)
    ensures
        opt_string_view(r) == string_field(entries_view(entries@), key@),
{
    match lookup_entry(entries, key) {
        Some(JsonValue::Str(s)) => Some(s.clone()),
        _ => None,
    }
}

/// Decodes a required boolean field of an object.
pub(crate) fn get_bool_field(entries: &Vec<(String, JsonValue)>, key: &String) -> (r: Option<bool>)
    ensures
        r == bool_field(entries_view(entries@), key@),
{
    match lookup_entry(entries, key) {
        Some(JsonValue::Bool(b)) => Some(*b),
        _ => None,
    }
}

/// Decodes an optional unsigned-integer field of an object.
pub(crate) fn get_opt_u64_field(entries: &Vec<(String, JsonValue)>, key: &String) -> (r: Option<
    Option<u64>,
>)
    ensures
        r == opt_u64_field(entries_view(entries@), key@),
{
    match lookup_entry(entries, key) {
        None => Some(None),
        Some(JsonValue::Null) => Some(None),
        Some(JsonValue::UInt(n)) => Some(Some(*n)),
        Some(_) => None,
    }
}

/// Decodes an optional string field of an object.
pub(crate) fn get_opt_string_field(entries: &Vec<(String, JsonValue)>, key: &String) -> (r: Option<
    Option<String>,
>)
    ensures
        match r {
            Some(o) => opt_string_field(entries_view(entries@), key@) == Some(opt_string_view(o)),
            None => opt_string_field(entries_view(entries@), key@) is None,
        },
{
    match lookup_entry(entries, key) {
        None => Some(None),
        Some(JsonValue::Null) => Some(None),
        Some(JsonValue::Str(s)) => Some(Some(s.clone())),
        Some(_) => None,
    }
}

/// Decodes an optional field of arbitrary shape, handing back a copy of its
/// value, or `None` when the field is missing or null.
pub(crate) fn get_opt_value_field(entries: &Vec<(String, JsonValue)>, key: &String) -> (r: Option<
    JsonValue,
>)
    ensures
        opt_json_view(r) == opt_value_field(entries_view(entries@), key@),
{
    match lookup_entry(entries, key) {
        None => None,
        Some(JsonValue::Null) => None,
        Some(v) => Some(clone_json(v)),
    }
}

/// Decodes an optional array field, handing back a copy of its elements.
pub(crate) fn get_opt_array_field(entries: &Vec<(String, JsonValue)>, key: &String) -> (r: Option<
    Option<Vec<JsonValue>>,
>)
    ensures
        match r {
            Some(Some(a)) => opt_array_field(entries_view(entries@), key@) == Some(
                Some(elems_view(a@)),
            ),
            Some(None) => opt_array_field(entries_view(entries@), key@) == Some(
                None::<Seq<Json>>,
            ),
            None => opt_array_field(entries_view(entries@), key@) is None,
        },
{
    match lookup_entry(entries, key) {
        None => Some(None),
        Some(JsonValue::Null) => Some(None),
        Some(JsonValue::Array(a)) => Some(Some(clone_json_vec(a))),
        Some(_) => None,
    }
}

/// A deep copy of a JSON value; the copy has the same model as the original.
#[verifier::loop_isolation(false)]
pub fn clone_json(v: &JsonValue) -> (r: JsonValue)
    ensures
        r@ == v@,
    decreases *v,
{
    match v {
        JsonValue::Null => JsonValue::Null,
        JsonValue::Bool(b) => JsonValue::Bool(*b),
        JsonValue::UInt(n) => JsonValue::UInt(*n),
        JsonValue::OtherNumber => JsonValue::OtherNumber,
        JsonValue::Str(s) => JsonValue::Str(s.clone()),
        JsonValue::Array(a) => {
            proof {
                assert(decreases_to!(*v => *a));
            }
            JsonValue::Array(clone_json_vec(a))
        },
        JsonValue::Object(e) => {
            let mut out: Vec<(String, JsonValue)> = Vec::new();
            let mut i: usize = 0;
            while i < e.len()
                invariant
                    i <= e.len(),
                    out@.len() == i,
                    forall|j: int|
                        0 <= j < i ==> #[trigger] out@[j].0@ == e@[j].0@ && jview(out@[j].1)
                            == jview(e@[j].1),
                decreases e.len() - i,
            {
                let p: &(String, JsonValue) = &e[i];
                proof {
                    assert(decreases_to!(*v => e@[i as int].1));
                }
                out.push((p.0.clone(), clone_json(&p.1)));
                i = i + 1;
            }
            proof {
                assert(entries_view(out@) =~= entries_view(e@));
            }
            JsonValue::Object(out)
        },
    }
}

/// A deep copy of a vector of JSON values, element for element.
#[verifier::loop_isolation(false)]
pub(crate) fn clone_json_vec(a: &Vec<JsonValue>) -> (r: Vec<JsonValue>)
    ensures
        elems_view(r@) == elems_view(a@),
    decreases *a,
{
    let mut out: Vec<JsonValue> = Vec::new();
    let mut i: usize = 0;
    while i < a.len()
        invariant
            i <= a.len(),
            out@.len() == i,
            forall|j: int| 0 <= j < i ==> #[trigger] jview(out@[j]) == jview(a@[j]),
        decreases a.len() - i,
    {
        proof {
            assert(decreases_to!(*a => a@[i as int]));
        }
        out.push(clone_json(&a[i]));
        i = i + 1;
    }
    proof {
        assert forall|j: int| 0 <= j < a@.len() implies elems_view(out@)[j] == elems_view(
            a@,
        )[j] by {
            assert(jview(out@[j]) == jview(a@[j]));
        }
        assert(elems_view(out@) =~= elems_view(a@));
    }
    out
}

} // verus!
