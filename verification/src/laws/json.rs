//! What the building of JSON values does.
use crate::json::{
    flag_or_null, json_of, text_or_null, texts_value, value_or_null, Json, JsonObject,
};
use serde_json::Value;
use vstd::prelude::*;

verus! {

/// What an object holds under a key, if anything.
pub open spec fn entry(v: Value, key: Seq<char>) -> Option<Json> {
    match json_of(v) {
        Json::Object(m) => if m.contains_key(key) {
            Some(m[key])
        } else {
            None
        },
        _ => None,
    }
}

/// Whether the value is an object without any key but these.
pub open spec fn has_only(v: Value, keys: Set<Seq<char>>) -> bool {
    json_of(v) is Object && json_of(v)->Object_0.dom().subset_of(keys)
}

/// A new object has no entries, and a finished one has the entries it was given.
pub proof fn law_object_begins_empty_and_is_kept(empty: JsonObject, o: JsonObject, v: Value)
    requires
        call_ensures(JsonObject::new, (), empty),
        call_ensures(JsonObject::build, (o,), v),
    ensures
        forall|k: Seq<char>| !(#[trigger] empty@.contains_key(k)),
        json_of(v) == Json::Object(o@),
{
}

/// A value that is put into an object is found under its key, whatever it is,
/// and every other key is as before.
pub proof fn law_entry_is_found(
    o: JsonObject,
    key: &str,
    v: Value,
    s: &str,
    n: u64,
    b: bool,
    with_value: JsonObject,
    with_text: JsonObject,
    with_number: JsonObject,
    with_flag: JsonObject,
)
    requires
        call_ensures(JsonObject::with, (o, key, v), with_value),
        call_ensures(JsonObject::with_text, (o, key, s), with_text),
        call_ensures(JsonObject::with_number, (o, key, n), with_number),
        call_ensures(JsonObject::with_flag, (o, key, b), with_flag),
    ensures
        with_value@ == o@.insert(key@, json_of(v)),
        with_text@ == o@.insert(key@, Json::Text(s@)),
        with_number@ == o@.insert(key@, Json::Int(n as int)),
        with_flag@ == o@.insert(key@, Json::Bool(b)),
{
}

/// A value that may be missing is found under its key where it is there, and
/// leaves the object as it was where it is not.
pub proof fn law_missing_entry_is_left_out(
    o: JsonObject,
    key: &str,
    v: Option<Value>,
    s: Option<String>,
    n: Option<u32>,
    b: Option<bool>,
    with_value: JsonObject,
    with_text: JsonObject,
    with_number: JsonObject,
    with_flag: JsonObject,
)
    requires
        call_ensures(JsonObject::maybe, (o, key, v), with_value),
        call_ensures(JsonObject::maybe_text, (o, key, &s), with_text),
        call_ensures(JsonObject::maybe_number, (o, key, n), with_number),
        call_ensures(JsonObject::maybe_flag, (o, key, b), with_flag),
    ensures
        v is None ==> with_value@ == o@,
        v is Some ==> with_value@ == o@.insert(key@, json_of(v->0)),
        s is None ==> with_text@ == o@,
        s is Some ==> with_text@ == o@.insert(key@, Json::Text(s->0@)),
        n is None ==> with_number@ == o@,
        n is Some ==> with_number@ == o@.insert(key@, Json::Int(n->0 as int)),
        b is None ==> with_flag@ == o@,
        b is Some ==> with_flag@ == o@.insert(key@, Json::Bool(b->0)),
{
}

/// A value that may be missing is itself where it is there, and null where it is
/// not.
pub proof fn law_missing_value_is_null(
    s: Option<String>,
    v: Option<Value>,
    b: Option<bool>,
    text: Value,
    value: Value,
    flag: Value,
)
    requires
        call_ensures(text_or_null, (&s,), text),
        call_ensures(value_or_null, (v,), value),
        call_ensures(flag_or_null, (b,), flag),
    ensures
        s is None ==> json_of(text) == Json::Null,
        s is Some ==> json_of(text) == Json::Text(s->0@),
        v is None ==> json_of(value) == Json::Null,
        v is Some ==> json_of(value) == json_of(v->0),
        b is None ==> json_of(flag) == Json::Null,
        b is Some ==> json_of(flag) == Json::Bool(b->0),
{
}

/// An array of strings holds each of them at its place.
pub proof fn law_array_of_texts(items: Vec<String>, r: Value)
    requires
        call_ensures(texts_value, (&items,), r),
    ensures
        json_of(r) is List,
        json_of(r)->List_0.len() == items@.len(),
        forall|i: int|
            0 <= i < items@.len() ==> #[trigger] json_of(r)->List_0[i] == Json::Text(items@[i]@),
{
}

} // verus!
