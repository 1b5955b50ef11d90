//! A plain model of JSON documents, filled from `serde_json`.
use vstd::prelude::*;

verus! {

/// A JSON value. Numbers keep their textual form; an object keeps its
/// members in the order `serde_json` reports them, each key once.
pub enum JsonValue {
    Null,
    Bool(bool),
    Number(String),
    Str(String),
    Array(Vec<JsonValue>),
    Object(Vec<(String, JsonValue)>),
}

/// The name of what `serde_json::from_str::<serde_json::Value>` yields for a
/// text, as a `JsonValue`; `None` where it reports an error.
pub uninterp spec fn json_document(text: Seq<char>) -> Option<JsonValue>;

#[verifier::external_type_specification]
#[verifier::external_body]
pub struct ExValue(serde_json::Value);

/// Converts a `serde_json` value variant by variant.
#[verifier::external_body]
fn from_serde(v: serde_json::Value) -> JsonValue {
    match v {
        serde_json::Value::Null => JsonValue::Null,
        serde_json::Value::Bool(b) => JsonValue::Bool(b),
        serde_json::Value::Number(n) => JsonValue::Number(n.to_string()),
        serde_json::Value::String(s) => JsonValue::Str(s),
        serde_json::Value::Array(a) => JsonValue::Array(a.into_iter().map(from_serde).collect()),
        serde_json::Value::Object(o) => JsonValue::Object(o.into_iter().map(|(k, x)| (k, from_serde(x))).collect()),
    }
}

/// Parses JSON text with `serde_json::from_str`; claimed: success exactly
/// when `json_document` is some value, and then that value. The error
/// carries `serde_json`'s message, of which nothing is claimed.
#[verifier::external_body]
pub(crate) fn parse_json(text: &str) -> (r: Result<JsonValue, String>)
    ensures
        match r {
            Ok(v) => json_document(text@) == Some(v),
            Err(_) => json_document(text@) is None,
        },
{
    serde_json::from_str::<serde_json::Value>(text).map(from_serde).map_err(|e| e.to_string())
}

/// Position of the first member named `key` at or after `i`, or -1.
pub open spec fn key_position(members: Seq<(String, JsonValue)>, key: Seq<char>, i: int) -> int
    decreases members.len() - i,
{
    if i < 0 || i >= members.len() {
        -1
    } else if members[i].0@ == key {
        i
    } else {
        key_position(members, key, i + 1)
    }
}

/// `Value::get(key)`: the member of an object named `key`.
pub open spec fn json_get(v: JsonValue, key: Seq<char>) -> Option<JsonValue> {
    match v {
        JsonValue::Object(m) => {
            let i = key_position(m@, key, 0);
            if i >= 0 {
                Some(m@[i].1)
            } else {
                None
            }
        },
        _ => None,
    }
}

/// `Value::as_str`.
pub open spec fn json_str(v: JsonValue) -> Option<Seq<char>> {
    match v {
        JsonValue::Str(s) => Some(s@),
        _ => None,
    }
}

/// `Value::as_array`.
pub open spec fn json_array(v: JsonValue) -> Option<Seq<JsonValue>> {
    match v {
        JsonValue::Array(a) => Some(a@),
        _ => None,
    }
}

/// The string member `key` of `v`, if `v` is an object with such a member
/// holding a string (`v.get(key).and_then(as_str)`, or `v[key].as_str()`).
pub open spec fn str_member(v: JsonValue, key: Seq<char>) -> Option<Seq<char>> {
    match json_get(v, key) {
        Some(m) => json_str(m),
        None => None,
    }
}

/// The array member `key` of `v` (`v[key].as_array()`).
pub open spec fn array_member(v: JsonValue, key: Seq<char>) -> Option<Seq<JsonValue>> {
    match json_get(v, key) {
        Some(m) => json_array(m),
        None => None,
    }
}

/// A string member, or the empty text (`v[key].as_str().unwrap_or("")`).
pub open spec fn text_member(v: JsonValue, key: Seq<char>) -> Seq<char> {
    match str_member(v, key) {
        Some(s) => s,
        None => Seq::empty(),
    }
}

impl JsonValue {
    /// `Value::get` with a key.
    pub fn get(&self, key: &str) -> (r: Option<&JsonValue>)
        ensures
            match json_get(*self, key@) {
                Some(m) => r matches Some(x) && *x == m,
                None => r is None,
            },
    {
        match self {
            JsonValue::Object(m) => {
                let mut i: usize = 0;
                while i < m.len()
                    invariant
                        *self == JsonValue::Object(*m),
                        i <= m@.len(),
                        key_position(m@, key@, 0) == key_position(m@, key@, i as int),
                    decreases m.len() - i,
                {
                    if crate::text::str_eq(m[i].0.as_str(), key) {
                        assert(key_position(m@, key@, i as int) == i);
                        assert(m[i as int].1 == m@[i as int].1);
                        return Some(&m[i].1);
                    }
                    i = i + 1;
                }
                None
            },
            _ => None,
        }
    }

    /// `Value::as_str`.
    pub fn as_str(&self) -> (r: Option<&String>)
        ensures
            match json_str(*self) {
                Some(s) => r matches Some(x) && x@ == s,
                None => r is None,
            },
    {
        match self {
            JsonValue::Str(s) => Some(s),
            _ => None,
        }
    }

    /// `Value::as_array`.
    pub fn as_array(&self) -> (r: Option<&Vec<JsonValue>>)
        ensures
            match json_array(*self) {
                Some(a) => r matches Some(x) && x@ == a,
                None => r is None,
            },
    {
        match self {
            JsonValue::Array(a) => Some(a),
            _ => None,
        }
    }

    /// The string member `key`, if there is one.
    pub fn str_member(&self, key: &str) -> (r: Option<&String>)
        ensures
            match str_member(*self, key@) {
                Some(s) => r matches Some(x) && x@ == s,
                None => r is None,
            },
    {
        match self.get(key) {
            Some(m) => m.as_str(),
            None => None,
        }
    }

    /// The array member `key`, if there is one.
    pub fn array_member(&self, key: &str) -> (r: Option<&Vec<JsonValue>>)
        ensures
            match array_member(*self, key@) {
                Some(a) => r matches Some(x) && x@ == a,
                None => r is None,
            },
    {
        match self.get(key) {
            Some(m) => m.as_array(),
            None => None,
        }
    }

    /// A string member as an owned string, empty when absent.
    pub fn text_member(&self, key: &str) -> (r: String)
        ensures
            r@ == text_member(*self, key@),
    {
        match self.str_member(key) {
            Some(s) => s.clone(),
            None => String::new(),
        }
    }
}

} // verus!

verus! {

impl JsonValue {
    /// Takes member `key` out of an object value.
    pub fn into_member(self, key: &str) -> (r: Option<JsonValue>)
        ensures
            r == json_get(self, key@),
    {
        match self {
            JsonValue::Object(m) => {
                let ghost mm = m@;
                let mut m = m;
                let mut i: usize = 0;
                while i < m.len()
                    invariant
                        m@ == mm,
                        self == JsonValue::Object(m),
                        i <= m@.len(),
                        key_position(mm, key@, 0) == key_position(mm, key@, i as int),
                    decreases m.len() - i,
                {
                    if crate::text::str_eq(m[i].0.as_str(), key) {
                        assert(key_position(mm, key@, i as int) == i);
                        let (_, x) = m.remove(i);
                        return Some(x);
                    }
                    i = i + 1;
                }
                None
            },
            _ => None,
        }
    }
}

} // verus!
