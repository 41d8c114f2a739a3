use vstd::prelude::*;

use crate::text::{str_eq, views};

verus! {

/// A parsed JSON document, as far as configuration overrides read it.
///
/// A number keeps only its value as an unsigned 64-bit integer, which is the
/// one reading of numbers that the overrides make (`None` for negative,
/// fractional or out-of-range numbers).  An object keeps its entries in order.
pub enum JsonValue {
    Null,
    Bool(bool),
    Number(Option<u64>),
    Str(String),
    Array(Vec<JsonValue>),
    Object(Vec<(String, JsonValue)>),
}

/// The JSON value type of `serde_json`, carried through the parse wrapper.
#[verifier::external_type_specification]
#[verifier::external_body]
pub struct ExJsonValue(serde_json::Value);

/// What `serde_json::from_str::<serde_json::Value>` makes of a text, read as a
/// `JsonValue`: `None` where the text is not one JSON document.
pub uninterp spec fn json_parse(s: Seq<char>) -> Option<JsonValue>;

/// Reads a `serde_json::Value` as a `JsonValue`, variant for variant: a number
/// keeps what `as_u64` gives of it, an array its items and an object its
/// entries in the order the map yields them.
#[verifier::external_body]
fn json_of(v: &serde_json::Value) -> JsonValue {
    match v {
        serde_json::Value::Null => JsonValue::Null,
        serde_json::Value::Bool(b) => JsonValue::Bool(*b),
        serde_json::Value::Number(n) => JsonValue::Number(n.as_u64()),
        serde_json::Value::String(t) => JsonValue::Str(t.clone()),
        serde_json::Value::Array(items) => JsonValue::Array(items.iter().map(json_of).collect()),
        serde_json::Value::Object(map) => JsonValue::Object(map.iter().map(|(k, x)| (k.clone(), json_of(x))).collect()),
    }
}

/// Parses a text with `serde_json::from_str` into a `serde_json::Value` and
/// reads the value as a `JsonValue`. The contract claims only that the result
/// is a function of the text (`json_parse`); how `serde_json` parses is not
/// stated.
#[verifier::external_body]
pub(crate) fn parse_json(s: &str) -> (r: Option<JsonValue>)
    ensures
        r == json_parse(s@),
{
    match serde_json::from_str::<serde_json::Value>(s) {
        Ok(v) => Some(json_of(&v)),
        Err(_) => None,
    }
}

/// The first value stored under `key` in an object's entries.
pub open spec fn entries_get(entries: Seq<(String, JsonValue)>, key: Seq<char>) -> Option<JsonValue>
    decreases entries.len(),
{
    if entries.len() == 0 {
        None
    } else if entries[0].0@ == key {
        Some(entries[0].1)
    } else {
        entries_get(entries.skip(1), key)
    }
}

impl JsonValue {
    pub open spec fn spec_as_u64(&self) -> Option<u64> {
        match self {
            JsonValue::Number(n) => *n,
            _ => None,
        }
    }

    pub open spec fn spec_as_bool(&self) -> Option<bool> {
        match self {
            JsonValue::Bool(b) => Some(*b),
            _ => None,
        }
    }

    pub open spec fn spec_as_str(&self) -> Option<String> {
        match self {
            JsonValue::Str(s) => Some(*s),
            _ => None,
        }
    }

    pub open spec fn spec_get(&self, key: Seq<char>) -> Option<JsonValue> {
        match self {
            JsonValue::Object(entries) => entries_get(entries@, key),
            _ => None,
        }
    }

    /// The value as an unsigned integer, when it is one.
    pub fn as_u64(&self) -> (r: Option<u64>)
        ensures
            r == self.spec_as_u64(),
    {
        match self {
            JsonValue::Number(n) => *n,
            _ => None,
        }
    }

    /// The value as a boolean, when it is one.
    pub fn as_bool(&self) -> (r: Option<bool>)
        ensures
            r == self.spec_as_bool(),
    {
        match self {
            JsonValue::Bool(b) => Some(*b),
            _ => None,
        }
    }

    /// The value as a string, when it is one.
    pub fn as_str(&self) -> (r: Option<&String>)
        ensures
            match r {
                Some(s) => self.spec_as_str() == Some(*s),
                None => self.spec_as_str() is None,
            },
    {
        match self {
            JsonValue::Str(s) => Some(s),
            _ => None,
        }
    }

    pub fn is_null(&self) -> (r: bool)
        ensures
            r == (*self is Null),
    {
        match self {
            JsonValue::Null => true,
            _ => false,
        }
    }

    /// The value stored under `key` when `self` is an object.
    pub fn get(&self, key: &str) -> (r: Option<&JsonValue>)
        ensures
            match r {
                Some(v) => self.spec_get(key@) == Some(*v),
                None => self.spec_get(key@) is None,
            },
    {
        match self {
            JsonValue::Object(entries) => {
                let mut i: usize = 0;
                assert(entries@.skip(0) =~= entries@);
                while i < entries.len()
                    invariant
                        i <= entries@.len(),
                        self.spec_get(key@) == entries_get(entries@, key@),
                        entries_get(entries@.skip(i as int), key@) == entries_get(entries@, key@),
                    decreases entries.len() - i,
                {
                    assert(entries@.skip(i as int).skip(1) =~= entries@.skip(i + 1));
                    assert(entries@.skip(i as int)[0] == entries@[i as int]);
                    if str_eq(entries[i].0.as_str(), key) {
                        return Some(&entries[i].1);
                    }
                    i = i + 1;
                }
                None
            },
            _ => None,
        }
    }
}

/// The strings of a JSON array, skipping its other items.
pub open spec fn strings_of(items: Seq<JsonValue>) -> Seq<String>
    decreases items.len(),
{
    if items.len() == 0 {
        Seq::empty()
    } else {
        let rest = strings_of(items.drop_last());
        match items.last() {
            JsonValue::Str(s) => rest.push(s),
            _ => rest,
        }
    }
}

/// The list a JSON value denotes as a list of strings: `None` unless it is an
/// array; its string items otherwise.
pub open spec fn string_list_spec(v: JsonValue) -> Option<Seq<String>> {
    match v {
        JsonValue::Array(items) => Some(strings_of(items@)),
        _ => None,
    }
}

/// Reads a JSON array of strings, skipping items that are not strings.
pub fn parse_string_list(value: &JsonValue) -> (r: Option<Vec<String>>)
    ensures
        match r {
            Some(l) => string_list_spec(*value) == Some(l@),
            None => string_list_spec(*value) is None,
        },
{
    match value {
        JsonValue::Array(items) => {
            let mut out: Vec<String> = Vec::new();
            let mut i: usize = 0;
            while i < items.len()
                invariant
                    i <= items@.len(),
                    out@ == strings_of(items@.take(i as int)),
                decreases items.len() - i,
            {
                assert(items@.take(i + 1).drop_last() =~= items@.take(i as int));
                match &items[i] {
                    JsonValue::Str(s) => {
                        out.push(s.clone());
                    },
                    _ => {},
                }
                i = i + 1;
            }
            assert(items@.take(i as int) =~= items@);
            Some(out)
        },
        _ => None,
    }
}

/// A copy of a list of strings.
pub fn copy_strings(v: &Vec<String>) -> (r: Vec<String>)
    ensures
        r@ == v@,
        views(r@) == views(v@),
{
    let mut out: Vec<String> = Vec::new();
    let mut i: usize = 0;
    while i < v.len()
        invariant
            i <= v@.len(),
            out@ == v@.take(i as int),
        decreases v.len() - i,
    {
        out.push(v[i].clone());
        assert(out@ =~= v@.take(i + 1));
        i = i + 1;
    }
    assert(v@.take(i as int) =~= v@);
    out
}

}
