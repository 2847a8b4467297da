//! The JSON documents that serde_json reads, seen through the same model of
//! plain values as YAML documents (JSON's data being a part of YAML's).

use vstd::prelude::*;
use crate::yaml::YamlTree;

verus! {

#[verifier::external_type_specification]
#[verifier::external_body]
pub struct ExJsonValue(serde_json::Value);

/// What a `serde_json::Value` holds; an object's entries are in the order
/// they were written (serde_json's map keeps insertion order here).
pub uninterp spec fn json_tree(v: serde_json::Value) -> YamlTree;

/// The document that serde_json reads from a text, if the text is JSON.
pub uninterp spec fn json_of(s: Seq<char>) -> Option<YamlTree>;

/// One level of a JSON node.
pub enum JsonNode {
    Null,
    Bool(bool),
    Number(String),
    Str(String),
    Items(Vec<serde_json::Value>),
    Pairs(Vec<(String, serde_json::Value)>),
}

pub open spec fn json_node_of(n: JsonNode, t: YamlTree) -> bool {
    match n {
        JsonNode::Null => t == YamlTree::Null,
        JsonNode::Bool(b) => t == YamlTree::Bool(b),
        JsonNode::Number(s) => t == YamlTree::Number(s@),
        JsonNode::Str(s) => t == YamlTree::Str(s@),
        JsonNode::Items(xs) => t == YamlTree::Items(xs@.map_values(|x: serde_json::Value| json_tree(x))),
        JsonNode::Pairs(ps) => t == YamlTree::Pairs(
            ps@.map_values(|p: (String, serde_json::Value)| (YamlTree::Str(p.0@), json_tree(p.1))),
        ),
    }
}

/// Relies on `serde_json::from_str::<serde_json::Value>`: the document, or
/// `None` where the text is not JSON.
#[verifier::external_body]
pub fn parse_json(s: &str) -> (r: Option<serde_json::Value>)
    ensures
        r is None <==> json_of(s@) is None,
        r matches Some(v) ==> json_of(s@) == Some(json_tree(v)),
{
    serde_json::from_str::<serde_json::Value>(s).ok()
}

/// Relies on the variants of `serde_json::Value`, on `Map::iter` giving an
/// object's entries in the order they were written (with the
/// `preserve_order` feature), and on `Number`'s `Display` for its text.
#[verifier::external_body]
pub fn split_json(v: &serde_json::Value) -> (r: JsonNode)
    ensures
        json_node_of(r, json_tree(*v)),
{
    match v {
        serde_json::Value::Null => JsonNode::Null,
        serde_json::Value::Bool(b) => JsonNode::Bool(*b),
        serde_json::Value::Number(n) => JsonNode::Number(n.to_string()),
        serde_json::Value::String(s) => JsonNode::Str(s.clone()),
        serde_json::Value::Array(xs) => JsonNode::Items(xs.clone()),
        serde_json::Value::Object(m) => JsonNode::Pairs(m.iter().map(|(k, x)| (k.clone(), x.clone())).collect()),
    }
}

} // verus!
