//! The boundary to the JSON parser. Text goes in, plain values come out; what
//! the parser computes is given a name, and the rest of the crate is verified
//! against that name.

use crate::text::str_eq;
use serde_json::Value;
use vstd::prelude::*;

verus! {

/// One member of a JSON object: its key, and its value as compact JSON text.
#[derive(Clone, Debug, PartialEq, Eq)]
pub struct Member {
    pub key: String,
    pub text: String,
}

impl View for Member {
    type V = (Seq<char>, Seq<char>);

    open spec fn view(&self) -> (Seq<char>, Seq<char>) {
        (self.key@, self.text@)
    }
}

/// One JSON value, one level deep: what lies inside an array or an object is
/// kept as compact JSON text, to be parsed in its turn where it is needed.
#[derive(Clone, Debug, PartialEq, Eq)]
pub enum Json {
    /// `null`.
    Null,
    /// `true` or `false`.
    Bool(bool),
    /// A number: its value where it is an integer that fits in 64 bits
    /// without a sign, nothing where it is negative or has a fraction.
    Number(Option<u64>),
    /// A string, escapes resolved.
    Text(String),
    /// An array: the text of each item.
    Array(Vec<String>),
    /// An object: its members.
    Object(Vec<Member>),
}

/// What a JSON value holds.
pub enum JsonView {
    Null,
    Bool(bool),
    Number(Option<u64>),
    Text(Seq<char>),
    Array(Seq<Seq<char>>),
    Object(Seq<(Seq<char>, Seq<char>)>),
}

/// The characters of a run of strings, in order.
pub open spec fn texts(items: Seq<String>) -> Seq<Seq<char>> {
    items.map_values(|item: String| item@)
}

/// The views of a run of members, in order.
pub open spec fn member_views(members: Seq<Member>) -> Seq<(Seq<char>, Seq<char>)> {
    members.map_values(|m: Member| m@)
}

impl View for Json {
    type V = JsonView;

    open spec fn view(&self) -> JsonView {
        match self {
            Json::Null => JsonView::Null,
            Json::Bool(flag) => JsonView::Bool(*flag),
            Json::Number(number) => JsonView::Number(*number),
            Json::Text(text) => JsonView::Text(text@),
            Json::Array(items) => JsonView::Array(texts(items@)),
            Json::Object(members) => JsonView::Object(member_views(members@)),
        }
    }
}

/// The view of an optional value.
pub open spec fn value_view(value: Option<Json>) -> Option<JsonView> {
    match value {
        Some(value) => Some(value@),
        None => None,
    }
}

/// The value that the JSON text `doc` spells; `None` where `doc` is not the
/// JSON text of exactly one value.
pub uninterp spec fn json_value(doc: Seq<char>) -> Option<JsonView>;

/// The JSON text of the string `text`: quoted, with escapes where JSON asks
/// for them.
pub uninterp spec fn json_string_literal(text: Seq<char>) -> Seq<char>;

/// The members of the object that `doc` spells; `None` where `doc` spells
/// anything else, or nothing.
pub open spec fn json_object_members(doc: Seq<char>) -> Option<Seq<(Seq<char>, Seq<char>)>> {
    match json_value(doc) {
        Some(JsonView::Object(members)) => Some(members),
        _ => None,
    }
}

/// The items of the array that `doc` spells; `None` where `doc` spells
/// anything else, or nothing.
pub open spec fn json_array_items(doc: Seq<char>) -> Option<Seq<Seq<char>>> {
    match json_value(doc) {
        Some(JsonView::Array(items)) => Some(items),
        _ => None,
    }
}

/// Whether `doc` is the JSON text of `null`.
pub open spec fn json_is_null(doc: Seq<char>) -> bool {
    json_value(doc) == Some(JsonView::Null)
}

/// Whether `doc` is the JSON text of one value, whatever its kind.
pub open spec fn json_is_valid(doc: Seq<char>) -> bool {
    json_value(doc) is Some
}

/// The number that `doc` spells, where it is an integer that fits in 64 bits
/// without a sign; `None` for every other text.
pub open spec fn json_u64_value(doc: Seq<char>) -> Option<u64> {
    match json_value(doc) {
        Some(JsonView::Number(number)) => number,
        _ => None,
    }
}

/// The string that `doc` spells; `None` where `doc` is not the JSON text of
/// a string.
pub open spec fn json_string_value(doc: Seq<char>) -> Option<Seq<char>> {
    match json_value(doc) {
        Some(JsonView::Text(text)) => Some(text),
        _ => None,
    }
}

/// The text of the first member called `key`, if there is one.
pub open spec fn member_text(members: Seq<(Seq<char>, Seq<char>)>, key: Seq<char>) -> Option<
    Seq<char>,
>
    decreases members.len(),
{
    if members.len() == 0 {
        None
    } else if members[0].0 == key {
        Some(members[0].1)
    } else {
        member_text(members.drop_first(), key)
    }
}

/// Parses `doc` with `serde_json::from_str` into a `serde_json::Value` and
/// hands it over one level deep: a number by `Number::as_u64`, the items of an
/// array and the values of an object's members each rendered by
/// `Value::to_string`. Trusted: the result is what `json_value` names.
#[verifier::external_body]
pub(crate) fn parse_json(doc: &str) -> (value: Option<Json>)
    ensures
        value_view(value) == json_value(doc@),
{
    match serde_json::from_str::<Value>(doc) {
        Ok(Value::Null) => Some(Json::Null),
        Ok(Value::Bool(flag)) => Some(Json::Bool(flag)),
        Ok(Value::Number(number)) => Some(Json::Number(number.as_u64())),
        Ok(Value::String(text)) => Some(Json::Text(text)),
        Ok(Value::Array(items)) => Some(Json::Array(items.iter().map(Value::to_string).collect())),
        Ok(Value::Object(map)) => Some(
            Json::Object(map.iter().map(|(k, v)| Member { key: k.clone(), text: v.to_string() }).collect()),
        ),
        Err(_) => None,
    }
}

/// Renders `text` as a JSON string through `serde_json::Value::to_string`.
/// Trusted: the result is what `json_string_literal` names.
#[verifier::external_body]
pub(crate) fn quote(text: &str) -> (literal: String)
    ensures
        literal@ == json_string_literal(text@),
{
    Value::String(text.to_owned()).to_string()
}

/// Parses `doc` as a JSON object and hands out its members.
pub fn parse_object(doc: &str) -> (members: Option<Vec<Member>>)
    ensures
        match members {
            Some(found) => json_object_members(doc@) == Some(member_views(found@)),
            None => json_object_members(doc@).is_none(),
        },
{
    match parse_json(doc) {
        Some(Json::Object(members)) => Some(members),
        _ => None,
    }
}

/// Parses `doc` as a JSON array and hands out the text of its items.
pub fn parse_array(doc: &str) -> (items: Option<Vec<String>>)
    ensures
        match items {
            Some(found) => json_array_items(doc@) == Some(texts(found@)),
            None => json_array_items(doc@).is_none(),
        },
{
    match parse_json(doc) {
        Some(Json::Array(items)) => Some(items),
        _ => None,
    }
}

/// Says whether `doc` is the JSON text of `null`.
pub fn is_null(doc: &str) -> (null: bool)
    ensures
        null == json_is_null(doc@),
{
    match parse_json(doc) {
        Some(Json::Null) => true,
        _ => false,
    }
}

/// Says whether `doc` is JSON text.
pub fn is_json(doc: &str) -> (valid: bool)
    ensures
        valid == json_is_valid(doc@),
{
    parse_json(doc).is_some()
}

/// Parses `doc` as an unsigned JSON number.
pub fn parse_u64(doc: &str) -> (number: Option<u64>)
    ensures
        number == json_u64_value(doc@),
{
    match parse_json(doc) {
        Some(Json::Number(number)) => number,
        _ => None,
    }
}

/// Parses `doc` as a JSON string.
pub fn parse_string(doc: &str) -> (text: Option<String>)
    ensures
        match text {
            Some(found) => json_string_value(doc@) == Some(found@),
            None => json_string_value(doc@).is_none(),
        },
{
    match parse_json(doc) {
        Some(Json::Text(text)) => Some(text),
        _ => None,
    }
}

/// Unfolds `member_text` at position `at` of a scan from the front.
proof fn lemma_member_text_skip(members: Seq<(Seq<char>, Seq<char>)>, key: Seq<char>, at: int)
    requires
        0 <= at < members.len(),
    ensures
        member_text(members.skip(at), key) == if members[at].0 == key {
            Some(members[at].1)
        } else {
            member_text(members.skip(at + 1), key)
        },
{
    assert(members.skip(at).drop_first() =~= members.skip(at + 1));
}

/// Looks `key` up among `members`: the text of the first member of that name.
pub fn find_member<'a>(members: &'a Vec<Member>, key: &str) -> (found: Option<&'a String>)
    ensures
        match found {
            Some(text) => member_text(member_views(members@), key@) == Some(text@),
            None => member_text(member_views(members@), key@).is_none(),
        },
{
    let ghost views = member_views(members@);
    let mut at: usize = 0;
    assert(views.skip(0) =~= views);
    while at < members.len()
        invariant
            at <= members.len(),
            views == member_views(members@),
            member_text(views, key@) == member_text(views.skip(at as int), key@),
        decreases members.len() - at,
    {
        proof {
            lemma_member_text_skip(views, key@, at as int);
        }
        if str_eq(members[at].key.as_str(), key) {
            return Some(&members[at].text);
        }
        at += 1;
    }
    None
}

} // verus!
