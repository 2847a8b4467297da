//! The YAML documents that serde_yaml reads, seen through a model of plain
//! values, and the few accessors that the normalizer uses.

use vstd::prelude::*;

verus! {

#[verifier::external_type_specification]
#[verifier::external_body]
pub struct ExYamlValue(serde_yaml::Value);

/// The shape of a YAML node: scalars with their text, sequences, and
/// mappings with their entries in document order. A tagged node keeps no
/// content.
pub enum YamlTree {
    Null,
    Bool(bool),
    Number(Seq<char>),
    Str(Seq<char>),
    Items(Seq<YamlTree>),
    Pairs(Seq<(YamlTree, YamlTree)>),
    Tagged,
}

/// What a `serde_yaml::Value` holds.
pub uninterp spec fn yaml_tree(v: serde_yaml::Value) -> YamlTree;

/// The document that serde_yaml reads from a text, if the text is YAML.
pub uninterp spec fn yaml_of(s: Seq<char>) -> Option<YamlTree>;

/// One level of a node: the scalar it holds, or its children as values.
pub enum Node {
    Null,
    Bool(bool),
    Number(String),
    Str(String),
    Items(Vec<serde_yaml::Value>),
    Pairs(Vec<(serde_yaml::Value, serde_yaml::Value)>),
    Tagged,
}

/// The node `n` is one level of the tree `t`.
pub open spec fn node_of(n: Node, t: YamlTree) -> bool {
    match n {
        Node::Null => t == YamlTree::Null,
        Node::Bool(b) => t == YamlTree::Bool(b),
        Node::Number(s) => t == YamlTree::Number(s@),
        Node::Str(s) => t == YamlTree::Str(s@),
        Node::Items(xs) => t == YamlTree::Items(xs@.map_values(|x: serde_yaml::Value| yaml_tree(x))),
        Node::Pairs(ps) => t == YamlTree::Pairs(
            ps@.map_values(
                |p: (serde_yaml::Value, serde_yaml::Value)| (yaml_tree(p.0), yaml_tree(p.1)),
            ),
        ),
        Node::Tagged => t == YamlTree::Tagged,
    }
}

/// Relies on `serde_yaml::from_str::<serde_yaml::Value>`: the document, or
/// `None` where the text is not YAML.
#[verifier::external_body]
pub fn parse_yaml(s: &str) -> (r: Option<serde_yaml::Value>)
    ensures
        r is None <==> yaml_of(s@) is None,
        r matches Some(v) ==> yaml_of(s@) == Some(yaml_tree(v)),
{
    serde_yaml::from_str::<serde_yaml::Value>(s).ok()
}

/// Relies on the variants of `serde_yaml::Value`, on `Mapping::iter` giving
/// the entries in document order, and on `Number`'s `Display` for its text.
#[verifier::external_body]
pub fn split(v: &serde_yaml::Value) -> (r: Node)
    ensures
        node_of(r, yaml_tree(*v)),
{
    match v {
        serde_yaml::Value::Null => Node::Null,
        serde_yaml::Value::Bool(b) => Node::Bool(*b),
        serde_yaml::Value::Number(n) => Node::Number(n.to_string()),
        serde_yaml::Value::String(s) => Node::Str(s.clone()),
        serde_yaml::Value::Sequence(xs) => Node::Items(xs.clone()),
        serde_yaml::Value::Mapping(m) => Node::Pairs(m.iter().map(|(k, x)| (k.clone(), x.clone())).collect()),
        serde_yaml::Value::Tagged(_) => Node::Tagged,
    }
}

} // verus!
