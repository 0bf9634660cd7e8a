use vstd::prelude::*;

verus! {

/// What the library reads of a JSON value. Numbers are not read by this
/// library, so their digits are not modelled. An object is the sequence of
/// its members in the order the map walks them; its keys are distinct.
pub enum Json {
    Null,
    Bool(bool),
    Number,
    Str(Seq<char>),
    Array(Seq<Json>),
    Object(Seq<(Seq<char>, Json)>),
}

/// The value of the member named `key`, if the member list has one.
pub open spec fn member(entries: Seq<(Seq<char>, Json)>, key: Seq<char>) -> Option<Json>
    decreases entries.len(),
{
    if entries.len() == 0 {
        None
    } else if entries.last().0 == key {
        Some(entries.last().1)
    } else {
        member(entries.drop_last(), key)
    }
}

/// The member `key` of `v`, when `v` is an object that has it.
pub open spec fn field(v: Json, key: Seq<char>) -> Option<Json> {
    match v {
        Json::Object(entries) => member(entries, key),
        _ => None,
    }
}

#[verifier::external_type_specification]
#[verifier::external_body]
pub struct ExValue(serde_json::Value);

#[verifier::external_type_specification]
#[verifier::external_body]
#[verifier::reject_recursive_types(K)]
#[verifier::reject_recursive_types(V)]
pub struct ExMap<K, V>(serde_json::Map<K, V>);

/// What a `serde_json::Value` holds.
pub uninterp spec fn value_model(v: serde_json::Value) -> Json;

/// The members of a `serde_json::Map`, in the order the map walks them.
pub uninterp spec fn map_entries(m: serde_json::Map<String, serde_json::Value>) -> Seq<(Seq<char>, Json)>;

/// The JSON document that a text denotes, if it is one.
pub uninterp spec fn json_document(text: Seq<char>) -> Option<Json>;

/// How serde_json writes a string value: quoted and escaped.
pub uninterp spec fn json_string(s: Seq<char>) -> Seq<char>;

/// Relies on serde_json::from_str: it parses the text into a `Value`, or fails
/// when the text is not a JSON document.
#[verifier::external_body]
pub(crate) fn parse_json(text: &str) -> (r: Option<serde_json::Value>)
    ensures
        r is Some <==> json_document(text@) is Some,
        r matches Some(v) ==> value_model(v) == json_document(text@)->0,
{
    serde_json::from_str::<serde_json::Value>(text).ok()
}

/// Relies on serde_json's `Value::as_str`: the text of a string value.
pub assume_specification[ serde_json::Value::as_str ](v: &serde_json::Value) -> (r: Option<&str>)
    ensures
        match value_model(*v) {
            Json::Str(s) => r matches Some(t) && t@ == s,
            _ => r is None,
        },
;

/// Relies on serde_json's `Value::as_object`: the map of an object value.
pub assume_specification[ serde_json::Value::as_object ](v: &serde_json::Value) -> (r: Option<&serde_json::Map<String, serde_json::Value>>)
    ensures
        match value_model(*v) {
            Json::Object(entries) => r matches Some(m) && map_entries(*m) == entries,
            _ => r is None,
        },
;

/// Relies on serde_json's `Map::len`: the number of members.
pub assume_specification[ serde_json::Map::<String, serde_json::Value>::len ](m: &serde_json::Map<String, serde_json::Value>) -> (r: usize)
    ensures
        r == map_entries(*m).len(),
;

/// Relies on serde_json's `Map::get`: the value stored under a key.
#[verifier::external_body]
pub(crate) fn map_get<'a>(m: &'a serde_json::Map<String, serde_json::Value>, key: &str) -> (r: Option<&'a serde_json::Value>)
    ensures
        match member(map_entries(*m), key@) {
            Some(j) => r matches Some(v) && value_model(*v) == j,
            None => r is None,
        },
{
    m.get(key)
}

/// Relies on serde_json's `Map::values`: the first value the map walks.
#[verifier::external_body]
pub(crate) fn map_first_value<'a>(m: &'a serde_json::Map<String, serde_json::Value>) -> (r: Option<&'a serde_json::Value>)
    ensures
        if map_entries(*m).len() == 0 {
            r is None
        } else {
            r matches Some(v) && value_model(*v) == map_entries(*m)[0].1
        },
{
    m.values().next()
}

/// Relies on serde_json's `Display` for a string `Value`: the string written
/// as a JSON string literal, quoted and escaped.
#[verifier::external_body]
pub(crate) fn quote_json(s: &str) -> (r: String)
    ensures
        r@ == json_string(s@),
{
    serde_json::Value::String(s.to_string()).to_string()
}

} // verus!
