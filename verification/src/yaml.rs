//! YAML documents (profiles are Clash/mihomo YAML configs), held as plain
//! library values.
use vstd::prelude::*;
use crate::text::text_eq;

verus! {

#[verifier::external_type_specification]
#[verifier::external_body]
pub struct ExYamlValue(serde_yaml::Value);

/// A YAML value. Mapping entries keep the order of the document.
#[derive(Debug)]
pub enum YamlNode {
    Null,
    Bool(bool),
    Number,
    Str(String),
    Sequence(Vec<YamlNode>),
    Mapping(Vec<(YamlNode, YamlNode)>),
    /// A value with an explicit tag.
    Tagged(Box<YamlNode>),
}

/// The value under any tags.
pub open spec fn untag(v: YamlNode) -> YamlNode
    decreases v,
{
    match v {
        YamlNode::Tagged(inner) => untag(*inner),
        _ => v,
    }
}

/// The value of the first entry whose key is the string `key`.
pub open spec fn entry(entries: Seq<(YamlNode, YamlNode)>, key: Seq<char>) -> Option<YamlNode>
    decreases entries.len(),
{
    if entries.len() == 0 {
        None
    } else if entries[0].0 matches YamlNode::Str(k) && k@ == key {
        Some(entries[0].1)
    } else {
        entry(entries.drop_first(), key)
    }
}

/// `Value::get(key)` with a string key.
pub open spec fn yaml_get(v: YamlNode, key: Seq<char>) -> Option<YamlNode> {
    match untag(v) {
        YamlNode::Mapping(entries) => entry(entries@, key),
        _ => None,
    }
}

/// `Value::as_str`.
pub open spec fn yaml_str(v: YamlNode) -> Option<Seq<char>> {
    match untag(v) {
        YamlNode::Str(s) => Some(s@),
        _ => None,
    }
}

/// `Value::as_sequence`.
pub open spec fn yaml_seq(v: YamlNode) -> Option<Seq<YamlNode>> {
    match untag(v) {
        YamlNode::Sequence(items) => Some(items@),
        _ => None,
    }
}

/// `value.get(key).and_then(Value::as_str)`.
pub open spec fn yaml_str_field(v: YamlNode, key: Seq<char>) -> Option<Seq<char>> {
    match yaml_get(v, key) {
        Some(x) => yaml_str(x),
        None => None,
    }
}

/// What `serde_yaml::from_str::<Value>` gives for a text: the document as a
/// library value, or the text of its error.
pub uninterp spec fn yaml_parsed(text: Seq<char>) -> Result<YamlNode, Seq<char>>;

/// The document read from a text; `None` when the text is not YAML.
pub open spec fn yaml_document(text: Seq<char>) -> Option<YamlNode> {
    match yaml_parsed(text) {
        Ok(v) => Some(v),
        Err(_) => None,
    }
}

/// serde_yaml's value as the library's, node for node (numbers are kept
/// only as numbers); the conversion of `parse_yaml`'s result.
#[verifier::external_body]
fn yaml_node_from(value: serde_yaml::Value) -> YamlNode {
    match value {
        serde_yaml::Value::Null => YamlNode::Null,
        serde_yaml::Value::Bool(b) => YamlNode::Bool(b),
        serde_yaml::Value::Number(_) => YamlNode::Number,
        serde_yaml::Value::String(s) => YamlNode::Str(s),
        serde_yaml::Value::Sequence(a) => YamlNode::Sequence(a.into_iter().map(yaml_node_from).collect()),
        serde_yaml::Value::Mapping(m) => YamlNode::Mapping(
            m.into_iter().map(|(k, v)| (yaml_node_from(k), yaml_node_from(v))).collect(),
        ),
        serde_yaml::Value::Tagged(t) => YamlNode::Tagged(Box::new(yaml_node_from(t.value))),
    }
}

/// A YAML document read from text (`serde_yaml::from_str::<Value>`), or the
/// text of serde_yaml's error.
#[verifier::external_body]
pub fn parse_yaml(text: &str) -> (r: Result<YamlNode, String>)
    ensures
        match r {
            Ok(v) => yaml_parsed(text@) == Ok::<YamlNode, Seq<char>>(v),
            Err(e) => yaml_parsed(text@) == Err::<YamlNode, Seq<char>>(e@),
        },
{
    match serde_yaml::from_str::<serde_yaml::Value>(text) {
        Ok(v) => Ok(yaml_node_from(v)),
        Err(e) => Err(e.to_string()),
    }
}

impl YamlNode {
    /// The value under any tags.
    pub fn untagged(&self) -> (r: &YamlNode)
        ensures
            *r == untag(*self),
        decreases self,
    {
        match self {
            YamlNode::Tagged(inner) => inner.untagged(),
            _ => self,
        }
    }

    /// The value of the entry whose key is the string `key`.
    pub fn get(&self, key: &str) -> (r: Option<&YamlNode>)
        ensures
            match r {
                Some(x) => yaml_get(*self, key@) == Some(*x),
                None => yaml_get(*self, key@) is None,
            },
    {
        match self.untagged() {
            YamlNode::Mapping(entries) => {
                let mut i: usize = 0;
                assert(entries@.skip(0) == entries@);
                while i < entries.len()
                    invariant
                        i <= entries@.len(),
                        yaml_get(*self, key@) == entry(entries@, key@),
                        entry(entries@, key@) == entry(entries@.skip(i as int), key@),
                    decreases entries@.len() - i,
                {
                    proof {
                        let rest = entries@.skip(i as int);
                        assert(rest[0] == entries@[i as int]);
                        assert(rest.drop_first() == entries@.skip(i + 1));
                    }
                    let hit = match &entries[i].0 {
                        YamlNode::Str(k) => text_eq(k.as_str(), key),
                        _ => false,
                    };
                    if hit {
                        assert(entry(entries@.skip(i as int), key@) == Some(entries@[i as int].1));
                        return Some(&entries[i].1);
                    }
                    i += 1;
                }
                None
            },
            _ => None,
        }
    }

    /// The text of a string value.
    pub fn as_str(&self) -> (r: Option<&str>)
        ensures
            match r {
                Some(s) => yaml_str(*self) == Some(s@),
                None => yaml_str(*self) is None,
            },
    {
        match self.untagged() {
            YamlNode::Str(s) => Some(s.as_str()),
            _ => None,
        }
    }

    /// The items of a sequence value.
    pub fn as_sequence(&self) -> (r: Option<&Vec<YamlNode>>)
        ensures
            match r {
                Some(a) => yaml_seq(*self) == Some(a@),
                None => yaml_seq(*self) is None,
            },
    {
        match self.untagged() {
            YamlNode::Sequence(items) => Some(items),
            _ => None,
        }
    }

    /// The text of the string entry `key`.
    pub fn str_field(&self, key: &str) -> (r: Option<&str>)
        ensures
            match r {
                Some(s) => yaml_str_field(*self, key@) == Some(s@),
                None => yaml_str_field(*self, key@) is None,
            },
    {
        match self.get(key) {
            Some(v) => v.as_str(),
            None => None,
        }
    }
}

} // verus!
