//! JSON values of `serde_json`, with what they hold stated over plain data.
use serde_json::Value;
use vstd::prelude::*;

verus! {

/// The data of a JSON value.
///
/// A number that is not an integer is held by the bits of its IEEE 754 double.
pub enum Json {
    Null,
    Bool(bool),
    Int(int),
    Float(u64),
    Text(Seq<char>),
    List(Seq<Json>),
    Object(Map<Seq<char>, Json>),
}

/// `serde_json::Value`, carried as an opaque value.
#[verifier::external_type_specification]
#[verifier::external_body]
pub struct ExValue(Value);

/// `serde_json::Map`, carried as an opaque value.
#[verifier::external_type_specification]
#[verifier::external_body]
#[verifier::reject_recursive_types(K)]
#[verifier::reject_recursive_types(V)]
pub struct ExMap<K, V>(serde_json::Map<K, V>);

/// What a JSON value holds.
pub uninterp spec fn json_of(v: Value) -> Json;

/// What a JSON object under construction holds, by key.
pub uninterp spec fn entries_of(m: serde_json::Map<String, Value>) -> Map<Seq<char>, Json>;

/// The entries of an object without any.
pub open spec fn no_entries() -> Map<Seq<char>, Json> {
    Map::empty()
}

/// `serde_json::Map::new`: an object without entries.
#[verifier::external_body]
pub(crate) fn new_object() -> (r: serde_json::Map<String, Value>)
    ensures
        entries_of(r) == no_entries(),
{
    serde_json::Map::new()
}

/// `serde_json::Map::insert`: the key holds the value afterwards, whatever it
/// held before, and the other keys keep theirs.
#[verifier::external_body]
pub(crate) fn insert_entry(m: &mut serde_json::Map<String, Value>, key: &str, value: Value)
    ensures
        entries_of(*final(m)) == entries_of(*old(m)).insert(key@, json_of(value)),
{
    m.insert(key.to_string(), value);
}

/// `Value::from` on a `serde_json::Map`: the JSON object with those entries.
#[verifier::external_body]
pub(crate) fn object_value(m: serde_json::Map<String, Value>) -> (r: Value)
    ensures
        json_of(r) == Json::Object(entries_of(m)),
{
    Value::from(m)
}

/// `Value::from` on a string: the JSON string with those characters.
#[verifier::external_body]
pub(crate) fn text_value(s: &str) -> (r: Value)
    ensures
        json_of(r) == Json::Text(s@),
{
    Value::from(s)
}

/// `Value::from` on an unsigned integer: the JSON number of that value.
#[verifier::external_body]
pub(crate) fn int_value(n: u64) -> (r: Value)
    ensures
        json_of(r) == Json::Int(n as int),
{
    Value::from(n)
}

/// `Value::from` on a `bool`: the JSON boolean of that value.
#[verifier::external_body]
pub(crate) fn bool_value(b: bool) -> (r: Value)
    ensures
        json_of(r) == Json::Bool(b),
{
    Value::from(b)
}

/// `Value::default`: the JSON null.
#[verifier::external_body]
pub(crate) fn null_value() -> (r: Value)
    ensures
        json_of(r) == Json::Null,
{
    Value::default()
}

/// `Value::from` on a vector of values: the JSON array of them, in order.
#[verifier::external_body]
pub(crate) fn list_value(items: Vec<Value>) -> (r: Value)
    ensures
        json_of(r) == Json::List(items@.map_values(|v: Value| json_of(v))),
{
    Value::from(items)
}

/// `Value::clone`: the same value.
#[verifier::external_body]
pub(crate) fn clone_value(v: &Value) -> (r: Value)
    ensures
        r == *v,
{
    v.clone()
}

/// The entries of JSON objects, some of which may be left out.
pub trait Entries: Sized {
    /// The entries with this one more, or unchanged where there is no value.
    spec fn maybe(self, key: Seq<char>, value: Option<Json>) -> Self;
}

impl Entries for Map<Seq<char>, Json> {
    open spec fn maybe(self, key: Seq<char>, value: Option<Json>) -> Self {
        match value {
            Some(v) => self.insert(key, v),
            None => self,
        }
    }
}

/// A string that may be missing, as JSON.
pub open spec fn text(s: Option<String>) -> Option<Json> {
    match s {
        Some(t) => Some(Json::Text(t@)),
        None => None,
    }
}

/// A number that may be missing, as JSON.
pub open spec fn number(n: Option<u32>) -> Option<Json> {
    match n {
        Some(i) => Some(Json::Int(i as int)),
        None => None,
    }
}

/// A flag that may be missing, as JSON.
pub open spec fn flag(b: Option<bool>) -> Option<Json> {
    match b {
        Some(x) => Some(Json::Bool(x)),
        None => None,
    }
}

/// A value that may be missing, as JSON.
pub open spec fn given(v: Option<Value>) -> Option<Json> {
    match v {
        Some(x) => Some(json_of(x)),
        None => None,
    }
}

/// The value, or null for a missing one.
pub open spec fn or_null(v: Option<Json>) -> Json {
    match v {
        Some(x) => x,
        None => Json::Null,
    }
}

/// The array of the strings, as JSON.
pub open spec fn texts(items: Seq<String>) -> Json {
    Json::List(items.map_values(|s: String| Json::Text(s@)))
}

/// The string as a value, or null for a missing one.
pub fn text_or_null(s: &Option<String>) -> (r: Value)
    ensures
        json_of(r) == or_null(text(*s)),
{
    match s {
        Some(t) => text_value(t.as_str()),
        None => null_value(),
    }
}

/// The value, or null for a missing one.
pub fn value_or_null(v: Option<Value>) -> (r: Value)
    ensures
        json_of(r) == or_null(given(v)),
{
    match v {
        Some(x) => x,
        None => null_value(),
    }
}

/// The flag as a value, or null for a missing one.
pub fn flag_or_null(b: Option<bool>) -> (r: Value)
    ensures
        json_of(r) == or_null(flag(b)),
{
    match b {
        Some(x) => bool_value(x),
        None => null_value(),
    }
}

/// The array of the strings.
pub fn texts_value(items: &Vec<String>) -> (r: Value)
    ensures
        json_of(r) == texts(items@),
{
    let mut list: Vec<Value> = Vec::new();
    for i in 0..items.len()
        invariant
            list@.len() == i,
            forall|j: int| 0 <= j < i ==> json_of(#[trigger] list@[j]) == Json::Text(items@[j]@),
    {
        list.push(text_value(items[i].as_str()));
    }
    let r = list_value(list);
    assert(list@.map_values(|v: Value| json_of(v)) =~= items@.map_values(
        |s: String| Json::Text(s@),
    ));
    r
}

/// A JSON object that is being put together.
pub struct JsonObject {
    map: serde_json::Map<String, Value>,
}

impl View for JsonObject {
    type V = Map<Seq<char>, Json>;

    closed spec fn view(&self) -> Map<Seq<char>, Json> {
        entries_of(self.map)
    }
}

impl JsonObject {
    /// An object without entries.
    pub fn new() -> (r: Self)
        ensures
            r@ == no_entries(),
    {
        JsonObject { map: new_object() }
    }

    /// The object with a value under this key.
    pub fn with(self, key: &str, value: Value) -> (r: Self)
        ensures
            r@ == self@.insert(key@, json_of(value)),
    {
        let mut map = self.map;
        insert_entry(&mut map, key, value);
        JsonObject { map }
    }

    /// The object with a string under this key.
    pub fn with_text(self, key: &str, s: &str) -> (r: Self)
        ensures
            r@ == self@.insert(key@, Json::Text(s@)),
    {
        self.with(key, text_value(s))
    }

    /// The object with a number under this key.
    pub fn with_number(self, key: &str, n: u64) -> (r: Self)
        ensures
            r@ == self@.insert(key@, Json::Int(n as int)),
    {
        self.with(key, int_value(n))
    }

    /// The object with a flag under this key.
    pub fn with_flag(self, key: &str, b: bool) -> (r: Self)
        ensures
            r@ == self@.insert(key@, Json::Bool(b)),
    {
        self.with(key, bool_value(b))
    }

    /// The object with a value under this key, if there is one.
    pub fn maybe(self, key: &str, value: Option<Value>) -> (r: Self)
        ensures
            r@ == self@.maybe(key@, given(value)),
    {
        match value {
            Some(v) => self.with(key, v),
            None => self,
        }
    }

    /// The object with a string under this key, if there is one.
    pub fn maybe_text(self, key: &str, s: &Option<String>) -> (r: Self)
        ensures
            r@ == self@.maybe(key@, text(*s)),
    {
        match s {
            Some(t) => self.with_text(key, t.as_str()),
            None => self,
        }
    }

    /// The object with a number under this key, if there is one.
    pub fn maybe_number(self, key: &str, n: Option<u32>) -> (r: Self)
        ensures
            r@ == self@.maybe(key@, number(n)),
    {
        match n {
            Some(i) => self.with_number(key, i as u64),
            None => self,
        }
    }

    /// The object with a flag under this key, if there is one.
    pub fn maybe_flag(self, key: &str, b: Option<bool>) -> (r: Self)
        ensures
            r@ == self@.maybe(key@, flag(b)),
    {
        match b {
            Some(x) => self.with_flag(key, x),
            None => self,
        }
    }

    /// The finished object as a value.
    pub fn build(self) -> (r: Value)
        ensures
            json_of(r) == Json::Object(self@),
    {
        object_value(self.map)
    }
}

} // verus!
