//! A plain JSON document tree, with lookups proved against their
//! specifications.  Parsing and printing JSON text is done by `serde_json`
//! behind two trusted items.
use crate::text::{eq_slices, str_chars};
use vstd::prelude::*;

verus! {

/// A JSON document.  Non-negative integers are kept as `u64`; every other
/// number keeps its JSON text.  Object members are kept in the order they
/// are given; a document that `serde_json` parsed has its members in
/// `serde_json`'s map order (sorted by key, the last of duplicate keys kept).
#[derive(Debug, PartialEq)]
pub enum JsonValue {
    Null,
    Bool(bool),
    Number(u64),
    OtherNumber(String),
    Str(String),
    Array(Vec<JsonValue>),
    Object(Vec<(String, JsonValue)>),
}

/// The mathematical JSON document: strings as character sequences.
pub enum Json {
    Null,
    Bool(bool),
    Number(u64),
    OtherNumber(Seq<char>),
    Str(Seq<char>),
    Array(Seq<Json>),
    Object(Seq<(Seq<char>, Json)>),
}

/// The document that a `JsonValue` holds.
pub open spec fn json_model(v: JsonValue) -> Json
    decreases v,
{
    match v {
        JsonValue::Null => Json::Null,
        JsonValue::Bool(b) => Json::Bool(b),
        JsonValue::Number(n) => Json::Number(n),
        JsonValue::OtherNumber(t) => Json::OtherNumber(t@),
        JsonValue::Str(s) => Json::Str(s@),
        JsonValue::Array(items) => Json::Array(
            Seq::new(
                items@.len(),
                |i: int|
                    if 0 <= i < items@.len() {
                        proof {
                            assert(decreases_to!(v => items));
                            assert(decreases_to!(items => items@));
                            assert(decreases_to!(items@ => items@[i]));
                        }
                        json_model(items@[i])
                    } else {
                        Json::Null
                    },
            ),
        ),
        JsonValue::Object(fields) => Json::Object(
            Seq::new(
                fields@.len(),
                |i: int|
                    if 0 <= i < fields@.len() {
                        proof {
                            assert(decreases_to!(v => fields));
                            assert(decreases_to!(fields => fields@));
                            assert(decreases_to!(fields@ => fields@[i]));
                            assert(decreases_to!(fields@[i] => fields@[i].1));
                        }
                        (fields@[i].0@, json_model(fields@[i].1))
                    } else {
                        (Seq::empty(), Json::Null)
                    },
            ),
        ),
    }
}

impl View for JsonValue {
    type V = Json;

    open spec fn view(&self) -> Json {
        json_model(*self)
    }
}

/// The documents of a list of values.
pub open spec fn views(s: Seq<JsonValue>) -> Seq<Json> {
    Seq::new(s.len(), |i: int| s[i]@)
}

pub open spec fn opt_view(o: Option<JsonValue>) -> Option<Json> {
    match o {
        Some(v) => Some(v@),
        None => None,
    }
}

#[verifier::external_type_specification]
#[verifier::external_body]
pub struct ExSerdeJsonValue(serde_json::Value);

/// What `serde_json` parses from `text`, as a `JsonValue`; `None` when
/// `text` is not a JSON document.
pub uninterp spec fn json_parse(text: Seq<char>) -> Option<Json>;

/// The compact JSON text that `serde_json` prints for a value.
pub uninterp spec fn json_text(v: Json) -> Seq<char>;

/// Parses `text` with `serde_json::from_str::<serde_json::Value>`; the
/// result is `json_parse(text@)`: `None` exactly when serde_json reports an
/// error.
#[verifier::external_body]
pub(crate) fn parse_json(text: &str) -> (r: Option<JsonValue>)
    ensures
        opt_view(r) == json_parse(text@),
{
    match serde_json::from_str::<serde_json::Value>(text) {
        Ok(v) => Some(json_from_serde(&v)),
        Err(_) => None,
    }
}

/// Prints a value with `serde_json::Value`'s `Display` (compact JSON,
/// object keys in serde_json's map order); the result is `json_text(v@)`.
#[verifier::external_body]
pub(crate) fn render_json(v: &JsonValue) -> (s: String)
    ensures
        s@ == json_text(v@),
{
    json_to_serde(v).to_string()
}

/// Moves a `serde_json::Value` into a `JsonValue`, variant by variant.
#[verifier::external_body]
fn json_from_serde(v: &serde_json::Value) -> JsonValue {
    match v {
        serde_json::Value::Null => JsonValue::Null,
        serde_json::Value::Bool(b) => JsonValue::Bool(*b),
        serde_json::Value::Number(n) => match n.as_u64() {
            Some(u) => JsonValue::Number(u),
            None => JsonValue::OtherNumber(n.to_string()),
        },
        serde_json::Value::String(s) => JsonValue::Str(s.clone()),
        serde_json::Value::Array(a) => JsonValue::Array(a.iter().map(json_from_serde).collect()),
        serde_json::Value::Object(m) => JsonValue::Object(
            m.iter().map(|(k, x)| (k.clone(), json_from_serde(x))).collect(),
        ),
    }
}

/// Moves a `JsonValue` into a `serde_json::Value`, variant by variant.  An
/// `OtherNumber` is read back from its text with `serde_json::from_str`;
/// text that is not a JSON value becomes `null` (what `json_text` names
/// includes this).
#[verifier::external_body]
fn json_to_serde(v: &JsonValue) -> serde_json::Value {
    match v {
        JsonValue::Null => serde_json::Value::Null,
        JsonValue::Bool(b) => serde_json::Value::Bool(*b),
        JsonValue::Number(u) => serde_json::Value::from(*u),
        JsonValue::OtherNumber(t) => serde_json::from_str(t).unwrap_or(serde_json::Value::Null),
        JsonValue::Str(s) => serde_json::Value::String(s.clone()),
        JsonValue::Array(a) => serde_json::Value::Array(a.iter().map(json_to_serde).collect()),
        JsonValue::Object(m) => serde_json::Value::Object(
            m.iter().map(|(k, x)| (k.clone(), json_to_serde(x))).collect(),
        ),
    }
}

// ---------------------------------------------------------------------------
// Lookups
// ---------------------------------------------------------------------------

/// First member of `fields` named `key`.
pub open spec fn fields_get(fields: Seq<(Seq<char>, Json)>, key: Seq<char>) -> Option<Json>
    decreases fields.len(),
{
    if fields.len() == 0 {
        None
    } else if fields[0].0 == key {
        Some(fields[0].1)
    } else {
        fields_get(fields.drop_first(), key)
    }
}

/// The member `key` of an object; `None` for other values.
pub open spec fn jget(v: Json, key: Seq<char>) -> Option<Json> {
    match v {
        Json::Object(fields) => fields_get(fields, key),
        _ => None,
    }
}

/// Member lookup through an optional value.
pub open spec fn jget_opt(v: Option<Json>, key: Seq<char>) -> Option<Json> {
    match v {
        Some(x) => jget(x, key),
        None => None,
    }
}

pub open spec fn jstr(v: Option<Json>) -> Option<Seq<char>> {
    match v {
        Some(Json::Str(s)) => Some(s),
        _ => None,
    }
}

pub open spec fn jarray(v: Option<Json>) -> Option<Seq<Json>> {
    match v {
        Some(Json::Array(items)) => Some(items),
        _ => None,
    }
}

pub open spec fn ref_val(r: Option<&JsonValue>) -> Option<Json> {
    match r {
        Some(x) => Some(x@),
        None => None,
    }
}

pub open spec fn ref_str(r: Option<&String>) -> Option<Seq<char>> {
    match r {
        Some(s) => Some(s@),
        None => None,
    }
}

/// Looks up the member `key` of an object.
pub fn json_get<'a>(v: &'a JsonValue, key: &[char]) -> (r: Option<&'a JsonValue>)
    ensures
        ref_val(r) == jget(v@, key@),
{
    match v {
        JsonValue::Object(fields) => {
            let ghost m = match v@ {
                Json::Object(ms) => ms,
                _ => Seq::empty(),
            };
            let mut i: usize = 0;
            assert(m.skip(0) =~= m);
            while i < fields.len()
                invariant
                    i <= fields.len(),
                    v@ == Json::Object(m),
                    m.len() == fields@.len(),
                    forall|k: int| 0 <= k < m.len() ==> #[trigger] m[k] == (fields@[k].0@, fields@[k].1@),
                    jget(v@, key@) == fields_get(m.skip(i as int), key@),
                decreases fields.len() - i,
            {
                let k = str_chars(fields[i].0.as_str());
                assert(m.skip(i as int)[0] == m[i as int]);
                assert(m.skip(i as int).drop_first() =~= m.skip(i + 1));
                if eq_slices(k.as_slice(), key) {
                    let entry = &fields[i];
                    assert(fields_get(m.skip(i as int), key@) == Some(entry.1@));
                    return Some(&entry.1);
                }
                i += 1;
            }
            None
        },
        _ => None,
    }
}

/// Looks up `key` in an optional value.
pub fn json_get_opt<'a>(v: Option<&'a JsonValue>, key: &[char]) -> (r: Option<&'a JsonValue>)
    ensures
        ref_val(r) == jget_opt(ref_val(v), key@),
{
    match v {
        Some(x) => json_get(x, key),
        None => None,
    }
}

pub fn json_as_str(v: Option<&JsonValue>) -> (r: Option<&String>)
    ensures
        ref_str(r) == jstr(ref_val(v)),
{
    match v {
        Some(JsonValue::Str(s)) => Some(s),
        _ => None,
    }
}

pub fn json_as_array(v: Option<&JsonValue>) -> (r: Option<&Vec<JsonValue>>)
    ensures
        r matches Some(items) ==> jarray(ref_val(v)) == Some(views(items@)),
        r is None ==> jarray(ref_val(v)) is None,
{
    match v {
        Some(JsonValue::Array(items)) => {
            assert(views(items@) =~= match ref_val(v) {
                Some(Json::Array(ms)) => ms,
                _ => Seq::empty(),
            });
            Some(items)
        },
        _ => None,
    }
}

/// Member `key` as a string, characters collected.
pub fn json_str_field(v: Option<&JsonValue>, key: &[char]) -> (r: Option<Vec<char>>)
    ensures
        r matches Some(s) ==> jstr(jget_opt(ref_val(v), key@)) == Some(s@),
        r is None ==> jstr(jget_opt(ref_val(v), key@)) is None,
{
    match json_as_str(json_get_opt(v, key)) {
        Some(s) => Some(str_chars(s.as_str())),
        None => None,
    }
}

/// A `JsonValue` object holding the given string members, in order.
pub fn string_object(members: Vec<(String, String)>) -> (v: JsonValue)
    ensures
        v@ == Json::Object(
            Seq::new(members@.len(), |i: int| (members@[i].0@, Json::Str(members@[i].1@))),
        ),
{
    let mut fields: Vec<(String, JsonValue)> = Vec::new();
    let mut rest = members;
    let ghost orig = rest@;
    while rest.len() > 0
        invariant
            fields@.len() + rest@.len() == orig.len(),
            rest@ == orig.skip(fields@.len() as int),
            forall|k: int|
                0 <= k < fields@.len() ==> #[trigger] fields@[k].0 == orig[k].0 && fields@[k].1
                    == JsonValue::Str(orig[k].1),
        decreases rest@.len(),
    {
        let (k, s) = rest.remove(0);
        assert(orig.skip(fields@.len() as int)[0] == orig[fields@.len() as int]);
        assert(rest@ =~= orig.skip(fields@.len() as int + 1));
        fields.push((k, JsonValue::Str(s)));
    }
    let r = JsonValue::Object(fields);
    proof {
        let got = match r@ {
            Json::Object(ms) => ms,
            _ => Seq::empty(),
        };
        let target = Seq::new(orig.len(), |i: int| (orig[i].0@, Json::Str(orig[i].1@)));
        assert forall|k: int| 0 <= k < got.len() implies got[k] == target[k] by {
            assert(json_model(JsonValue::Str(orig[k].1)) == Json::Str(orig[k].1@));
        }
        assert(got =~= target);
    }
    r
}

// ---------------------------------------------------------------------------
// Construction
// ---------------------------------------------------------------------------

pub open spec fn field_views(s: Seq<(String, JsonValue)>) -> Seq<(Seq<char>, Json)> {
    Seq::new(s.len(), |i: int| (s[i].0@, s[i].1@))
}

/// A JSON string.
pub fn jv_str(s: String) -> (v: JsonValue)
    ensures
        v@ == Json::Str(s@),
{
    JsonValue::Str(s)
}

/// A JSON array of the given values, in order.
pub fn jv_array(items: Vec<JsonValue>) -> (v: JsonValue)
    ensures
        v@ == Json::Array(views(items@)),
{
    let v = JsonValue::Array(items);
    proof {
        let got = match v@ {
            Json::Array(ms) => ms,
            _ => Seq::empty(),
        };
        assert(got =~= views(items@));
    }
    v
}

/// A JSON object with the given members, in order.
pub fn jv_object(fields: Vec<(String, JsonValue)>) -> (v: JsonValue)
    ensures
        v@ == Json::Object(field_views(fields@)),
{
    let v = JsonValue::Object(fields);
    proof {
        let got = match v@ {
            Json::Object(ms) => ms,
            _ => Seq::empty(),
        };
        assert(got =~= field_views(fields@));
    }
    v
}

/// A JSON array of strings.
pub fn jv_str_array(items: Vec<String>) -> (v: JsonValue)
    ensures
        v@ == Json::Array(Seq::new(items@.len(), |i: int| Json::Str(items@[i]@))),
{
    let mut out: Vec<JsonValue> = Vec::new();
    let mut i: usize = 0;
    while i < items.len()
        invariant
            i <= items.len(),
            out@.len() == i,
            forall|k: int| 0 <= k < i ==> (#[trigger] out@[k])@ == Json::Str(items@[k]@),
        decreases items.len() - i,
    {
        out.push(jv_str(items[i].clone()));
        i += 1;
    }
    let v = jv_array(out);
    assert(views(out@) =~= Seq::new(items@.len(), |i: int| Json::Str(items@[i]@)));
    v
}

/// The JSON text of a string (with serde_json's escaping).
pub fn json_string_text(s: &str) -> (r: String)
    ensures
        r@ == json_text(Json::Str(s@)),
{
    render_json(&jv_str(s.to_owned()))
}

/// A copy of a document.
pub fn json_clone(v: &JsonValue) -> (r: JsonValue)
    ensures
        r@ == v@,
    decreases v,
{
    match v {
        JsonValue::Null => JsonValue::Null,
        JsonValue::Bool(b) => JsonValue::Bool(*b),
        JsonValue::Number(n) => JsonValue::Number(*n),
        JsonValue::OtherNumber(t) => JsonValue::OtherNumber(t.clone()),
        JsonValue::Str(s) => JsonValue::Str(s.clone()),
        JsonValue::Array(items) => {
            let mut out: Vec<JsonValue> = Vec::new();
            let mut i: usize = 0;
            while i < items.len()
                invariant
                    i <= items.len(),
                    *v == JsonValue::Array(*items),
                    out@.len() == i,
                    forall|k: int| 0 <= k < i ==> (#[trigger] out@[k])@ == items@[k]@,
                decreases items.len() - i,
            {
                proof {
                    assert(decreases_to!(*v => (*v)->Array_0));
                    assert((*v)->Array_0 == *items);
                    assert(decreases_to!(*items => items@));
                    assert(decreases_to!(items@ => items@[i as int]));
                    assert(decreases_to!(*v => items@[i as int]));
                }
                out.push(json_clone(&items[i]));
                i += 1;
            }
            let r = jv_array(out);
            assert(views(out@) =~= views(items@));
            proof {
                let got = match v@ {
                    Json::Array(ms) => ms,
                    _ => Seq::empty(),
                };
                assert(got =~= views(items@));
            }
            r
        },
        JsonValue::Object(fields) => {
            let mut out: Vec<(String, JsonValue)> = Vec::new();
            let mut i: usize = 0;
            while i < fields.len()
                invariant
                    i <= fields.len(),
                    *v == JsonValue::Object(*fields),
                    out@.len() == i,
                    forall|k: int| 0 <= k < i ==> (#[trigger] field_views(out@)[k]) == field_views(fields@)[k],
                decreases fields.len() - i,
            {
                proof {
                    assert(decreases_to!(*v => (*v)->Object_0));
                    assert((*v)->Object_0 == *fields);
                    assert(decreases_to!(*fields => fields@));
                    assert(decreases_to!(fields@ => fields@[i as int]));
                    assert(decreases_to!(fields@[i as int] => fields@[i as int].1));
                    assert(decreases_to!(*v => fields@[i as int].1));
                }
                let c = json_clone(&fields[i].1);
                let ghost before = out@;
                out.push((fields[i].0.clone(), c));
                proof {
                    assert forall|k: int| 0 <= k < i + 1 implies (#[trigger] field_views(out@)[k]) == field_views(fields@)[k] by {
                        if k < i {
                            assert(field_views(out@)[k] == field_views(before)[k]);
                        }
                    }
                }
                i += 1;
            }
            let r = jv_object(out);
            assert(field_views(out@) =~= field_views(fields@));
            proof {
                let got = match v@ {
                    Json::Object(ms) => ms,
                    _ => Seq::empty(),
                };
                assert(got =~= field_views(fields@));
            }
            r
        },
    }
}

} // verus!
