//! Reading a stored transcript: a YAML list of records, each with a `role`
//! (system, user or assistant) and a `content` string.

use vstd::prelude::*;
use crate::prompt::{field, field_node};
use crate::transcript::{lemma_transcript_push, role_named, role_of_text, transcript_view, Message, MessageView};
use crate::yaml::{parse_yaml, split, yaml_of, yaml_tree, Node, YamlTree};

verus! {

/// The message that a record holds.
pub open spec fn message_of(t: YamlTree) -> Option<MessageView> {
    if t is Pairs {
        match field(t, "role"@) {
            Some(YamlTree::Str(r)) => match field(t, "content"@) {
                Some(YamlTree::Str(c)) => match role_of_text(r) {
                    Some(role) => Some((role, c)),
                    None => None,
                },
                _ => None,
            },
            _ => None,
        }
    } else {
        None
    }
}

/// The messages of a list of records, if each record holds one.
pub open spec fn messages_of(items: Seq<YamlTree>) -> Option<Seq<MessageView>>
    decreases items.len(),
{
    if items.len() == 0 {
        Some(Seq::empty())
    } else {
        match messages_of(items.drop_last()) {
            Some(ms) => match message_of(items.last()) {
                Some(m) => Some(ms.push(m)),
                None => None,
            },
            None => None,
        }
    }
}

/// The transcript that a document holds.
pub open spec fn transcript_of(t: YamlTree) -> Option<Seq<MessageView>> {
    match t {
        YamlTree::Items(xs) => messages_of(xs),
        _ => None,
    }
}

/// The message that a record holds.
fn message_from(v: &serde_yaml::Value) -> (r: Option<Message>)
    ensures
        match r {
            Some(m) => message_of(yaml_tree(*v)) == Some(m.view()),
            None => message_of(yaml_tree(*v)) is None,
        },
{
    match split(v) {
        Node::Pairs(_) => {},
        _ => {
            return None;
        },
    }
    let role = match field_node(v, "role") {
        Some(Node::Str(r)) => r,
        _ => {
            return None;
        },
    };
    let content = match field_node(v, "content") {
        Some(Node::Str(c)) => c,
        _ => {
            return None;
        },
    };
    match role_named(role.as_str()) {
        Some(r) => Some(Message { role: r, content }),
        None => None,
    }
}

/// Reads a stored transcript; `None` where the text does not hold one.
pub fn transcript_from_yaml(text: &str) -> (r: Option<Vec<Message>>)
    ensures
        match r {
            Some(ms) => yaml_of(text@) matches Some(t) && transcript_of(t) == Some(
                transcript_view(ms@),
            ),
            None => yaml_of(text@) is None || transcript_of(yaml_of(text@)->Some_0) is None,
        },
{
    let doc = match parse_yaml(text) {
        Some(d) => d,
        None => {
            return None;
        },
    };
    let items = match split(&doc) {
        Node::Items(xs) => xs,
        _ => {
            return None;
        },
    };
    let ghost tree = items@.map_values(|x: serde_yaml::Value| yaml_tree(x));
    let mut out: Vec<Message> = Vec::new();
    let mut i: usize = 0;
    assert(tree.subrange(0, 0) =~= Seq::<YamlTree>::empty());
    assert(transcript_view(out@) =~= Seq::<MessageView>::empty());
    while i < items.len()
        invariant
            i <= items@.len(),
            tree == items@.map_values(|x: serde_yaml::Value| yaml_tree(x)),
            yaml_tree(doc) == YamlTree::Items(tree),
            yaml_of(text@) == Some(yaml_tree(doc)),
            messages_of(tree.subrange(0, i as int)) == Some(transcript_view(out@)),
        decreases items@.len() - i,
    {
        let ghost before = out@;
        let ghost pre = tree.subrange(0, i + 1);
        assert(pre.drop_last() =~= tree.subrange(0, i as int));
        assert(pre.last() == yaml_tree(items@[i as int]));
        match message_from(&items[i]) {
            Some(m) => {
                out.push(m);
                proof {
                    lemma_transcript_push(before, m);
                }
            },
            None => {
                proof {
                    lemma_prefix_fails(tree, i + 1);
                }
                return None;
            },
        }
        i = i + 1;
    }
    assert(tree.subrange(0, i as int) =~= tree);
    Some(out)
}

/// A list whose first `n` records do not all hold messages holds no
/// transcript.
proof fn lemma_prefix_fails(items: Seq<YamlTree>, n: int)
    requires
        0 <= n <= items.len(),
        messages_of(items.subrange(0, n)) is None,
    ensures
        messages_of(items) is None,
    decreases items.len() - n,
{
    if n < items.len() {
        let next = items.subrange(0, n + 1);
        assert(next.drop_last() =~= items.subrange(0, n));
        lemma_prefix_fails(items, n + 1);
    } else {
        assert(items.subrange(0, n) =~= items);
    }
}

} // verus!
