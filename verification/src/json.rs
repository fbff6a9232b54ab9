//! JSON values as the controller returns them, held as plain library values.
use vstd::prelude::*;
use crate::text::text_eq;

verus! {

#[verifier::external_type_specification]
#[verifier::external_body]
pub struct ExJsonValue(serde_json::Value);

/// A JSON value. Object members come in the order serde_json keeps them:
/// sorted by name, one member per name (a repeated name keeps its last value).
#[derive(Debug)]
pub enum JsonNode {
    Null,
    Bool(bool),
    /// A number, with its value when it is a whole number that fits in `u64`.
    Number(Option<u64>),
    Str(String),
    Array(Vec<JsonNode>),
    Object(Vec<(String, JsonNode)>),
}

/// The value of the first member named `key`.
pub open spec fn member(entries: Seq<(String, JsonNode)>, key: Seq<char>) -> Option<JsonNode>
    decreases entries.len(),
{
    if entries.len() == 0 {
        None
    } else if entries[0].0@ == key {
        Some(entries[0].1)
    } else {
        member(entries.drop_first(), key)
    }
}

/// `Value::get(key)`: the member of an object.
pub open spec fn json_get(v: JsonNode, key: Seq<char>) -> Option<JsonNode> {
    match v {
        JsonNode::Object(entries) => member(entries@, key),
        _ => None,
    }
}

/// `Value::as_str`.
pub open spec fn json_str(v: JsonNode) -> Option<Seq<char>> {
    match v {
        JsonNode::Str(s) => Some(s@),
        _ => None,
    }
}

/// `Value::as_array`.
pub open spec fn json_array(v: JsonNode) -> Option<Seq<JsonNode>> {
    match v {
        JsonNode::Array(items) => Some(items@),
        _ => None,
    }
}

/// `Value::as_u64`.
pub open spec fn json_u64(v: JsonNode) -> Option<u64> {
    match v {
        JsonNode::Number(n) => n,
        _ => None,
    }
}

/// `Value::as_object`.
pub open spec fn json_object(v: JsonNode) -> Option<Seq<(String, JsonNode)>> {
    match v {
        JsonNode::Object(entries) => Some(entries@),
        _ => None,
    }
}

/// `Value::get(key).and_then(Value::as_str)`.
pub open spec fn json_str_field(v: JsonNode, key: Seq<char>) -> Option<Seq<char>> {
    match json_get(v, key) {
        Some(x) => json_str(x),
        None => None,
    }
}

pub open spec fn is_null(v: JsonNode) -> bool {
    v is Null
}

/// What `serde_json::from_str::<Value>` gives for a text: the document as a
/// library value, or the text of its error.
pub uninterp spec fn json_parsed(text: Seq<char>) -> Result<JsonNode, Seq<char>>;

/// serde_json's value as the library's, node for node (a number keeps its
/// `as_u64`); the conversion of `parse_json`'s result.
#[verifier::external_body]
fn json_node_from(value: serde_json::Value) -> JsonNode {
    match value {
        serde_json::Value::Null => JsonNode::Null,
        serde_json::Value::Bool(b) => JsonNode::Bool(b),
        serde_json::Value::Number(n) => JsonNode::Number(n.as_u64()),
        serde_json::Value::String(s) => JsonNode::Str(s),
        serde_json::Value::Array(a) => JsonNode::Array(a.into_iter().map(json_node_from).collect()),
        serde_json::Value::Object(o) => JsonNode::Object(
            o.into_iter().map(|(k, v)| (k, json_node_from(v))).collect(),
        ),
    }
}

/// A JSON document read from text (`serde_json::from_str::<Value>`), or the
/// text of serde_json's error.
#[verifier::external_body]
pub fn parse_json(text: &str) -> (r: Result<JsonNode, String>)
    ensures
        match r {
            Ok(v) => json_parsed(text@) == Ok::<JsonNode, Seq<char>>(v),
            Err(e) => json_parsed(text@) == Err::<JsonNode, Seq<char>>(e@),
        },
{
    match serde_json::from_str::<serde_json::Value>(text) {
        Ok(v) => Ok(json_node_from(v)),
        Err(e) => Err(e.to_string()),
    }
}

impl JsonNode {
    /// The member named `key` of an object.
    pub fn get(&self, key: &str) -> (r: Option<&JsonNode>)
        ensures
            match r {
                Some(x) => json_get(*self, key@) == Some(*x),
                None => json_get(*self, key@) is None,
            },
    {
        match self {
            JsonNode::Object(entries) => {
                let mut i: usize = 0;
                assert(entries@.skip(0) == entries@);
                while i < entries.len()
                    invariant
                        i <= entries@.len(),
                        json_get(*self, key@) == member(entries@, key@),
                        member(entries@, key@) == member(entries@.skip(i as int), key@),
                    decreases entries@.len() - i,
                {
                    proof {
                        let rest = entries@.skip(i as int);
                        assert(rest[0] == entries@[i as int]);
                        assert(rest.drop_first() == entries@.skip(i + 1));
                    }
                    if text_eq(entries[i].0.as_str(), key) {
                        assert(member(entries@.skip(i as int), key@) == Some(entries@[i as int].1));
                        return Some(&entries[i].1);
                    }
                    i += 1;
                }
                None
            },
            _ => None,
        }
    }

    /// The text of a string value.
    pub fn as_str(&self) -> (r: Option<&str>)
        ensures
            match r {
                Some(s) => json_str(*self) == Some(s@),
                None => json_str(*self) is None,
            },
    {
        match self {
            JsonNode::Str(s) => Some(s.as_str()),
            _ => None,
        }
    }

    /// The items of an array value.
    pub fn as_array(&self) -> (r: Option<&Vec<JsonNode>>)
        ensures
            match r {
                Some(a) => json_array(*self) == Some(a@),
                None => json_array(*self) is None,
            },
    {
        match self {
            JsonNode::Array(items) => Some(items),
            _ => None,
        }
    }

    /// The members of an object value.
    pub fn as_object(&self) -> (r: Option<&Vec<(String, JsonNode)>>)
        ensures
            match r {
                Some(a) => json_object(*self) == Some(a@),
                None => json_object(*self) is None,
            },
    {
        match self {
            JsonNode::Object(entries) => Some(entries),
            _ => None,
        }
    }

    /// The value of a whole-number value that fits in `u64`.
    pub fn as_u64(&self) -> (r: Option<u64>)
        ensures
            r == json_u64(*self),
    {
        match self {
            JsonNode::Number(n) => *n,
            _ => None,
        }
    }

    /// Whether the value is `null`.
    pub fn is_null(&self) -> (r: bool)
        ensures
            r == is_null(*self),
    {
        match self {
            JsonNode::Null => true,
            _ => false,
        }
    }

    /// The text of the string member `key`.
    pub fn str_field(&self, key: &str) -> (r: Option<&str>)
        ensures
            match r {
                Some(s) => json_str_field(*self, key@) == Some(s@),
                None => json_str_field(*self, key@) is None,
            },
    {
        match self.get(key) {
            Some(v) => v.as_str(),
            None => None,
        }
    }
}

} // verus!
