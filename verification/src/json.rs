//! JSON values: reading them, and writing them.
use vstd::prelude::*;

verus! {

/// `serde_json::Value`.
#[verifier::external_type_specification]
#[verifier::external_body]
pub struct ExJsonValue(serde_json::Value);

/// `serde_json::Error`.
#[verifier::external_type_specification]
#[verifier::external_body]
pub struct ExJsonError(serde_json::Error);

/// What a JSON value holds. A number is what is written for it.
pub enum Json {
    Null,
    Bool(bool),
    Number(Seq<char>),
    Text(Seq<char>),
    Array(Seq<Json>),
    Object(Map<Seq<char>, Json>),
}

/// What a `serde_json::Value` holds.
pub uninterp spec fn json_of(value: serde_json::Value) -> Json;

/// What a `serde_json::Error` says.
pub uninterp spec fn error_text(error: serde_json::Error) -> Seq<char>;

/// What `serde_json::from_str` reads from a text as a `serde_json::Value`, or what the error says
/// that it reports.
pub uninterp spec fn json_parse(source: Seq<char>) -> Result<Json, Seq<char>>;

/// What `serde_json::to_vec` writes for a value.
pub uninterp spec fn json_bytes(value: Json) -> Seq<u8>;

/// What a text holds, if it is JSON.
pub open spec fn parsed_json(source: Seq<char>) -> Option<Json> {
    match json_parse(source) {
        Ok(value) => Some(value),
        Err(_) => None,
    }
}

/// The member of an object.
pub open spec fn member(value: Json, key: Seq<char>) -> Option<Json> {
    match value {
        Json::Object(members) => if members.contains_key(key) {
            Some(members[key])
        } else {
            None
        },
        _ => None,
    }
}

/// The member of what may be an object.
pub open spec fn member_of(value: Option<Json>, key: Seq<char>) -> Option<Json> {
    match value {
        Some(inner) => member(inner, key),
        None => None,
    }
}

/// An object whose members are texts.
pub open spec fn text_object(members: Map<Seq<char>, Seq<char>>) -> Json {
    Json::Object(members.map_values(|t: Seq<char>| Json::Text(t)))
}

/// Whether a value is an object whose members are texts.
pub open spec fn is_text_object(value: Json) -> bool {
    match value {
        Json::Object(members) => forall|key: Seq<char>|
            members.contains_key(key) ==> #[trigger] members[key] is Text,
        _ => false,
    }
}

/// Whether no two of the names are the same.
pub open spec fn names_differ(list: Seq<(Seq<char>, Seq<char>)>) -> bool {
    forall|i: int, j: int|
        0 <= i < j < list.len() ==> (#[trigger] list[i]).0 != (#[trigger] list[j]).0
}

/// Names with their texts, as a map.
pub open spec fn members_of(list: Seq<(Seq<char>, Seq<char>)>) -> Map<Seq<char>, Seq<char>>
    decreases list.len(),
{
    if list.len() == 0 {
        Map::empty()
    } else {
        members_of(list.drop_last()).insert(list.last().0, list.last().1)
    }
}

/// `serde_json::from_str`, for a `serde_json::Value`: whether it succeeds, what the value then
/// holds, and what the error says otherwise, depends on the text alone.
#[verifier::external_body]
pub(crate) fn parse_json(source: &str) -> (r: Result<serde_json::Value, serde_json::Error>)
    ensures
        match r {
            Ok(value) => json_parse(source@) is Ok && json_parse(source@)->Ok_0 == json_of(value),
            Err(error) => json_parse(source@) is Err && json_parse(source@)->Err_0 == error_text(
                error,
            ),
        },
{
    serde_json::from_str(source)
}

/// `to_string` of a `serde_json::Error`: what the error says, which depends on the error alone.
#[verifier::external_body]
pub(crate) fn json_error_text(error: &serde_json::Error) -> (r: String)
    ensures
        r@ == error_text(*error),
{
    error.to_string()
}

/// `serde_json::Value::get` with a text: the member of that name, of an object that has one.
#[verifier::external_body]
pub(crate) fn json_get<'a>(value: &'a serde_json::Value, key: &str) -> (r: Option<
    &'a serde_json::Value,
>)
    ensures
        match r {
            Some(inner) => member(json_of(*value), key@) == Some(json_of(*inner)),
            None => member(json_of(*value), key@) is None,
        },
{
    value.get(key)
}

/// `serde_json::Value::as_str`: the text, of a value that is one.
#[verifier::external_body]
pub(crate) fn json_as_str(value: &serde_json::Value) -> (r: Option<&str>)
    ensures
        match r {
            Some(t) => json_of(*value) == Json::Text(t@),
            None => !(json_of(*value) is Text),
        },
{
    value.as_str()
}

/// `serde_json::Value::as_bool`: the truth value, of a value that is one.
#[verifier::external_body]
pub(crate) fn json_as_bool(value: &serde_json::Value) -> (r: Option<bool>)
    ensures
        match r {
            Some(b) => json_of(*value) == Json::Bool(b),
            None => !(json_of(*value) is Bool),
        },
{
    value.as_bool()
}

/// `serde_json::Map` from its members, no two of the same name, in a `serde_json::Value`: the
/// object with these members.
#[verifier::external_body]
pub(crate) fn json_object(members: Vec<(String, String)>) -> (r: serde_json::Value)
    requires
        names_differ(members.deep_view()),
    ensures
        json_of(r) == text_object(members_of(members.deep_view())),
{
    let map: serde_json::Map<String, serde_json::Value> = members
        .into_iter()
        .map(|(name, text)| (name, serde_json::Value::String(text)))
        .collect();
    serde_json::Value::Object(map)
}

/// `serde_json::from_slice`, for a `serde_json::Value`: it reads what `serde_json::from_str`
/// reads from the text that the bytes are in UTF-8, and reports an error for other bytes.
#[verifier::external_body]
pub(crate) fn json_from_slice(bytes: &[u8]) -> (r: Result<serde_json::Value, serde_json::Error>)
    ensures
        match r {
            Ok(value) => vstd::utf8::valid_utf8(bytes@) && parsed_json(
                vstd::utf8::decode_utf8(bytes@),
            ) == Some(json_of(value)),
            Err(_) => !vstd::utf8::valid_utf8(bytes@) || parsed_json(
                vstd::utf8::decode_utf8(bytes@),
            ) is None,
        },
{
    serde_json::from_slice(bytes)
}

/// `serde_json::to_vec`, for a `serde_json::Value`: it succeeds; what it writes depends on what
/// the value holds alone, and is UTF-8. `serde_json::from_str` reads an object whose members are
/// texts back; of other values that is not said, since it reads none that is nested too deeply.
#[verifier::external_body]
pub(crate) fn json_to_vec(value: &serde_json::Value) -> (r: Result<Vec<u8>, serde_json::Error>)
    ensures
        r is Ok,
        r->Ok_0@ == json_bytes(json_of(*value)),
        vstd::utf8::valid_utf8(r->Ok_0@),
        is_text_object(json_of(*value)) ==> parsed_json(vstd::utf8::decode_utf8(r->Ok_0@)) == Some(
            json_of(*value),
        ),
{
    serde_json::to_vec(value)
}

/// The JSON text of the value.
pub fn json_body(value: &serde_json::Value) -> (r: Vec<u8>)
    ensures
        r@ == json_bytes(json_of(*value)),
        vstd::utf8::valid_utf8(r@),
        is_text_object(json_of(*value)) ==> parsed_json(vstd::utf8::decode_utf8(r@)) == Some(
            json_of(*value),
        ),
{
    match json_to_vec(value) {
        Ok(bytes) => bytes,
        Err(_) => Vec::new(),
    }
}

/// The JSON text of the object with the given members, no two of the same name.
pub fn text_object_body(members: Vec<(String, String)>) -> (r: Vec<u8>)
    requires
        names_differ(members.deep_view()),
    ensures
        r@ == json_bytes(text_object(members_of(members.deep_view()))),
        vstd::utf8::valid_utf8(r@),
        parsed_json(vstd::utf8::decode_utf8(r@)) == Some(
            text_object(members_of(members.deep_view())),
        ),
{
    let value: serde_json::Value = json_object(members);
    json_body(&value)
}

} // verus!
