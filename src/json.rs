//! A JSON document as plain values, read from response text by serde_json, and
//! the lookups that the weather responses need.
use vstd::prelude::*;

verus! {

#[verifier::external_type_specification]
#[verifier::external_body]
pub struct ExJsonValue(serde_json::Value);

/// A JSON number: the text serde_json gives for it, and its value where it is
/// an integer that fits in `i64`.
pub struct JsonNumber {
    pub text: String,
    pub integer: Option<i64>,
}

/// A JSON value. An object keeps its members in the order serde_json hands them out.
pub enum Json {
    Null,
    Bool(bool),
    Number(JsonNumber),
    Str(String),
    Array(Vec<Json>),
    Object(Vec<(String, Json)>),
}

/// One level of a serde_json value: its children are still serde_json values.
enum JsonNode {
    Null,
    Bool(bool),
    Number(JsonNumber),
    Str(String),
    Array(Vec<serde_json::Value>),
    Object(Vec<(String, serde_json::Value)>),
}

/// The value of the first member named `key`; serde_json gives each name once.
pub open spec fn entry_value(entries: Seq<(String, Json)>, key: Seq<char>) -> Option<Json>
    decreases entries.len(),
{
    if entries.len() == 0 {
        None
    } else if entries[0].0@ == key {
        Some(entries[0].1)
    } else {
        entry_value(entries.drop_first(), key)
    }
}

/// The value that a lookup found, if any.
pub open spec fn found(r: Option<&Json>) -> Option<Json> {
    match r {
        Some(x) => Some(*x),
        None => None,
    }
}

/// The member `key` of an object.
pub open spec fn member(v: Option<Json>, key: Seq<char>) -> Option<Json> {
    match v {
        Some(Json::Object(entries)) => entry_value(entries@, key),
        _ => None,
    }
}

/// The element at index `i` of an array.
pub open spec fn element(v: Option<Json>, i: int) -> Option<Json> {
    match v {
        Some(Json::Array(items)) => if 0 <= i < items@.len() {
            Some(items@[i])
        } else {
            None
        },
        _ => None,
    }
}

/// The elements of an array.
pub open spec fn elements(v: Option<Json>) -> Option<Seq<Json>> {
    match v {
        Some(Json::Array(items)) => Some(items@),
        _ => None,
    }
}

/// The text of a number.
pub open spec fn number_text(v: Option<Json>) -> Option<Seq<char>> {
    match v {
        Some(Json::Number(n)) => Some(n.text@),
        _ => None,
    }
}

/// The value of an integer that fits in `i64`.
pub open spec fn integer_value(v: Option<Json>) -> Option<i64> {
    match v {
        Some(Json::Number(n)) => n.integer,
        _ => None,
    }
}

/// The contents of a string.
pub open spec fn string_text(v: Option<Json>) -> Option<Seq<char>> {
    match v {
        Some(Json::Str(s)) => Some(s@),
        _ => None,
    }
}

/// Whether two strings hold the same characters.
pub fn str_equal(a: &str, b: &str) -> (r: bool)
    ensures
        r == (a@ == b@),
{
    let n = a.unicode_len();
    if n != b.unicode_len() {
        return false;
    }
    let mut i: usize = 0;
    while i < n
        invariant
            n == a@.len() == b@.len(),
            0 <= i <= n,
            a@.subrange(0, i as int) == b@.subrange(0, i as int),
        decreases n - i,
    {
        if a.get_char(i) != b.get_char(i) {
            assert(a@[i as int] != b@[i as int]);
            return false;
        }
        assert(a@.subrange(0, i + 1) =~= a@.subrange(0, i as int).push(a@[i as int]));
        assert(b@.subrange(0, i + 1) =~= b@.subrange(0, i as int).push(b@[i as int]));
        i = i + 1;
    }
    assert(a@ =~= a@.subrange(0, n as int));
    assert(b@ =~= b@.subrange(0, n as int));
    true
}

/// How deeply serde_json lets arrays and objects nest when it reads text.
pub const NESTING_LIMIT: u32 = 128;

/// The document that serde_json reads from `text`, in plain form; `None` where
/// the text is not JSON.
pub uninterp spec fn json_document(text: Seq<char>) -> Option<Json>;

/// Relies on serde_json::from_str: reads JSON text into a `serde_json::Value`,
/// or fails where the text is not JSON (empty text ends before any value).
/// The value depends on the text alone, and `json_of` puts it in plain form;
/// serde_json refuses text nested deeper than `NESTING_LIMIT`, so `json_of`
/// always reaches the bottom of what it is given.
#[verifier::external_body]
fn read_document(text: &str) -> (r: Option<Json>)
    ensures
        r == json_document(text@),
        text@.len() == 0 ==> r is None,
{
    serde_json::from_str::<serde_json::Value>(text).ok().and_then(|v| json_of(&v, NESTING_LIMIT + 1))
}

/// Relies on the variants of `serde_json::Value`, `Number`'s `Display` and
/// `Number::as_i64`, and `Map::iter`: takes one level of a value apart.
#[verifier::external_body]
fn node_of(v: &serde_json::Value) -> (r: JsonNode) {
    match v {
        serde_json::Value::Null => JsonNode::Null,
        serde_json::Value::Bool(b) => JsonNode::Bool(*b),
        serde_json::Value::Number(n) => JsonNode::Number(
            JsonNumber { text: n.to_string(), integer: n.as_i64() },
        ),
        serde_json::Value::String(t) => JsonNode::Str(t.clone()),
        serde_json::Value::Array(a) => JsonNode::Array(a.clone()),
        serde_json::Value::Object(m) => JsonNode::Object(
            m.iter().map(|(k, x)| (k.clone(), x.clone())).collect(),
        ),
    }
}

/// The plain form of `v`, where it nests no deeper than `depth` levels.
fn json_of(v: &serde_json::Value, depth: u32) -> (r: Option<Json>)
    decreases depth,
{
    if depth == 0 {
        return None;
    }
    match node_of(v) {
        JsonNode::Null => Some(Json::Null),
        JsonNode::Bool(b) => Some(Json::Bool(b)),
        JsonNode::Number(n) => Some(Json::Number(n)),
        JsonNode::Str(t) => Some(Json::Str(t)),
        JsonNode::Array(items) => {
            let mut out: Vec<Json> = Vec::new();
            let mut i: usize = 0;
            while i < items.len()
                invariant
                    0 <= i <= items@.len(),
                    depth > 0,
                decreases items@.len() - i,
            {
                match json_of(&items[i], depth - 1) {
                    Some(x) => out.push(x),
                    None => {
                        return None;
                    },
                }
                i = i + 1;
            }
            Some(Json::Array(out))
        },
        JsonNode::Object(entries) => {
            let mut out: Vec<(String, Json)> = Vec::new();
            let mut i: usize = 0;
            while i < entries.len()
                invariant
                    0 <= i <= entries@.len(),
                    depth > 0,
                decreases entries@.len() - i,
            {
                match json_of(&entries[i].1, depth - 1) {
                    Some(x) => out.push((entries[i].0.clone(), x)),
                    None => {
                        return None;
                    },
                }
                i = i + 1;
            }
            Some(Json::Object(out))
        },
    }
}

/// Reads a response body as JSON: the document serde_json reads from it. A
/// body that is not JSON reads as `null`, which holds none of the fields that
/// the lookups ask for.
pub fn parse_response(text: &str) -> (r: Json)
    ensures
        r == (match json_document(text@) {
            Some(j) => j,
            None => Json::Null,
        }),
        text@.len() == 0 ==> r is Null,
{
    match read_document(text) {
        Some(j) => j,
        None => Json::Null,
    }
}

impl Json {
    /// The member `key` of this value, where it is an object that has one.
    pub fn get(&self, key: &str) -> (r: Option<&Json>)
        ensures
            found(r) == member(Some(*self), key@),
    {
        match self {
            Json::Object(entries) => {
                let mut i: usize = 0;
                assert(entries@.skip(0) =~= entries@);
                while i < entries.len()
                    invariant
                        0 <= i <= entries@.len(),
                        member(Some(*self), key@) == entry_value(entries@.skip(i as int), key@),
                    decreases entries@.len() - i,
                {
                    let ghost rest = entries@.skip(i as int);
                    assert(rest.drop_first() =~= entries@.skip(i + 1));
                    assert(rest[0] == entries@[i as int]);
                    if str_equal(entries[i].0.as_str(), key) {
                        assert(rest.len() > 0 && rest[0].0@ == key@);
                        assert(entry_value(rest, key@) == Some(rest[0].1));
                        return Some(&entries[i].1);
                    }
                    i = i + 1;
                }
                None
            },
            _ => None,
        }
    }

    /// The element at `i` of this value, where it is an array that long.
    pub fn at(&self, i: usize) -> (r: Option<&Json>)
        ensures
            found(r) == element(Some(*self), i as int),
    {
        match self {
            Json::Array(items) => {
                if i < items.len() {
                    Some(&items[i])
                } else {
                    None
                }
            },
            _ => None,
        }
    }
}

} // verus!
