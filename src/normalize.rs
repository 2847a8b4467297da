//! The response normalizer: from the model's free text to exactly one tool
//! invocation, with a finish call as the fallback for text that holds none.

use vstd::prelude::*;
use crate::json::{json_of, json_tree, parse_json, split_json, JsonNode};
use crate::prompt::field;
use crate::text::{chars_of, concat2, owned, push_str, str_eq, string_of};
use crate::tools::{finish_tool, finish_tool_of};
use crate::yaml::{parse_yaml, split, yaml_of, yaml_tree, Node, YamlTree};

verus! {

/// An argument value: a scalar or a string.
#[derive(Clone, Debug, PartialEq, Eq)]
pub enum Scalar {
    Null,
    Bool(bool),
    Number(String),
    Text(String),
}

impl Scalar {
    pub open spec fn view(self) -> YamlTree {
        match self {
            Scalar::Null => YamlTree::Null,
            Scalar::Bool(b) => YamlTree::Bool(b),
            Scalar::Number(s) => YamlTree::Number(s@),
            Scalar::Text(s) => YamlTree::Str(s@),
        }
    }
}

/// A tool name with its arguments, in the order the model gave them.
#[derive(Clone, Debug, PartialEq, Eq)]
pub struct Invocation {
    pub name: String,
    pub args: Vec<(String, Scalar)>,
}

/// An invocation as plain values: the name, and each argument's key and value.
pub type InvocationView = (Seq<char>, Seq<(Seq<char>, YamlTree)>);

pub open spec fn args_view(args: Seq<(String, Scalar)>) -> Seq<(Seq<char>, YamlTree)> {
    args.map_values(|a: (String, Scalar)| (a.0@, a.1.view()))
}

impl Invocation {
    pub open spec fn view(self) -> InvocationView {
        (self.name@, args_view(self.args@))
    }
}

pub open spec fn opt_view(r: Option<Invocation>) -> Option<InvocationView> {
    match r {
        Some(i) => Some(i.view()),
        None => None,
    }
}

pub open spec fn is_scalar(t: YamlTree) -> bool {
    t is Null || t is Bool || t is Number || t is Str
}

/// The arguments that a node holds: none for an empty node, else a mapping
/// from strings to scalars.
pub open spec fn args_of(t: YamlTree) -> Option<Seq<(Seq<char>, YamlTree)>> {
    match t {
        YamlTree::Null => Some(Seq::empty()),
        YamlTree::Pairs(ps) => {
            if forall|i: int| 0 <= i < ps.len() ==> (#[trigger] ps[i]).0 is Str && is_scalar(ps[i].1) {
                Some(ps.map_values(|p: (YamlTree, YamlTree)| (p.0->Str_0, p.1)))
            } else {
                None
            }
        },
        _ => None,
    }
}

/// The invocation that a document holds: the first entry of a mapping, with
/// a string key and arguments; the other entries are dropped.
pub open spec fn invocation_of(t: YamlTree) -> Option<InvocationView> {
    match t {
        YamlTree::Pairs(ps) => {
            if ps.len() > 0 && ps[0].0 is Str && args_of(ps[0].1) is Some {
                Some((ps[0].0->Str_0, args_of(ps[0].1)->Some_0))
            } else {
                None
            }
        },
        _ => None,
    }
}

/// The invocation that a text holds, read as one YAML document.
pub open spec fn parsed_invocation(s: Seq<char>) -> Option<InvocationView> {
    match yaml_of(s) {
        Some(t) => invocation_of(t),
        None => None,
    }
}

/// The index of the first blank line (two newlines in a row) at or after
/// `i`, or the length of the text where there is none.
pub open spec fn first_blank_line(s: Seq<char>, i: int) -> int
    decreases s.len() - i,
{
    if i < 0 || i + 1 >= s.len() {
        s.len() as int
    } else if s[i] == '\n' && s[i + 1] == '\n' {
        i
    } else {
        first_blank_line(s, i + 1)
    }
}

/// The text up to its first blank line.
pub open spec fn head_of(s: Seq<char>) -> Seq<char> {
    s.subrange(0, first_blank_line(s, 0))
}

/// The finish call that carries a text as its message.
pub open spec fn fallback_of(s: Seq<char>, plan_mode: bool) -> InvocationView {
    (finish_tool_of(plan_mode).spec_name(), seq![("message"@, YamlTree::Str(s))])
}

/// How the model is asked to write its tool call.
#[derive(Clone, Copy, Debug, PartialEq, Eq, Structural)]
pub enum ToolResponseFormat {
    /// A YAML mapping from the tool name to its arguments.
    Yaml,
    /// A JSON object from the tool name to its arguments.
    JsonVariableKeys,
    /// A JSON object with the name under `tool` and the arguments under
    /// `tool_args`.
    JsonFixedKeys,
}

/// The call that a JSON object with fixed keys holds.
pub open spec fn fixed_invocation_of(t: YamlTree) -> Option<InvocationView> {
    if t is Pairs {
        match field(t, "tool"@) {
            Some(YamlTree::Str(name)) => match field(t, "tool_args"@) {
                Some(a) => match args_of(a) {
                    Some(args) => Some((name, args)),
                    None => None,
                },
                None => None,
            },
            _ => None,
        }
    } else {
        None
    }
}

/// The invocation that a text holds in the given format.
pub open spec fn invocation_in(format: ToolResponseFormat, s: Seq<char>) -> Option<InvocationView> {
    match format {
        ToolResponseFormat::Yaml => parsed_invocation(s),
        ToolResponseFormat::JsonVariableKeys => match json_of(s) {
            Some(t) => invocation_of(t),
            None => None,
        },
        ToolResponseFormat::JsonFixedKeys => match json_of(s) {
            Some(t) => fixed_invocation_of(t),
            None => None,
        },
    }
}

/// The invocation for a trimmed, non-empty response: the whole text read in
/// the format, else the text before its first blank line, else the finish
/// call.
pub open spec fn normalized(s: Seq<char>, plan_mode: bool, format: ToolResponseFormat) -> InvocationView {
    match invocation_in(format, s) {
        Some(i) => i,
        None => match invocation_in(format, head_of(s)) {
            Some(i) => i,
            None => fallback_of(s, plan_mode),
        },
    }
}

/// The characters for which `char::is_whitespace` holds: those with the
/// Unicode White_Space property.
pub open spec fn is_space(c: char) -> bool {
    ('\u{9}' <= c && c <= '\u{d}') || c == ' ' || c == '\u{85}' || c == '\u{a0}' || c == '\u{1680}'
        || ('\u{2000}' <= c && c <= '\u{200a}') || c == '\u{2028}' || c == '\u{2029}' || c
        == '\u{202f}' || c == '\u{205f}' || c == '\u{3000}'
}

/// The text without its leading whitespace.
pub open spec fn trim_front(s: Seq<char>) -> Seq<char>
    decreases s.len(),
{
    if s.len() > 0 && is_space(s[0]) {
        trim_front(s.drop_first())
    } else {
        s
    }
}

/// The text without its trailing whitespace.
pub open spec fn trim_back(s: Seq<char>) -> Seq<char>
    decreases s.len(),
{
    if s.len() > 0 && is_space(s.last()) {
        trim_back(s.drop_last())
    } else {
        s
    }
}

/// The text without leading and trailing whitespace.
pub open spec fn trimmed(s: Seq<char>) -> Seq<char> {
    trim_back(trim_front(s))
}

/// Relies on `str::trim`, which drops the leading and trailing characters
/// for which `char::is_whitespace` holds.
#[verifier::external_body]
pub fn trim(s: &str) -> (r: &str)
    ensures
        r@ == trimmed(s@),
{
    s.trim()
}

/// The scalar that a node holds, if it is one.
fn scalar_from(v: &serde_yaml::Value) -> (r: Option<Scalar>)
    ensures
        r is Some <==> is_scalar(yaml_tree(*v)),
        r matches Some(x) ==> x.view() == yaml_tree(*v),
{
    match split(v) {
        Node::Null => Some(Scalar::Null),
        Node::Bool(b) => Some(Scalar::Bool(b)),
        Node::Number(s) => Some(Scalar::Number(s)),
        Node::Str(s) => Some(Scalar::Text(s)),
        _ => None,
    }
}

/// The arguments that a node holds.
fn args_from(v: &serde_yaml::Value) -> (r: Option<Vec<(String, Scalar)>>)
    ensures
        r is Some <==> args_of(yaml_tree(*v)) is Some,
        r matches Some(a) ==> args_view(a@) == args_of(yaml_tree(*v))->Some_0,
{
    match split(v) {
        Node::Null => {
            let out: Vec<(String, Scalar)> = Vec::new();
            assert(args_view(out@) =~= Seq::empty());
            Some(out)
        },
        Node::Pairs(ps) => {
            let ghost tps = ps@.map_values(
                |p: (serde_yaml::Value, serde_yaml::Value)| (yaml_tree(p.0), yaml_tree(p.1)),
            );
            let mut out: Vec<(String, Scalar)> = Vec::new();
            let mut i: usize = 0;
            while i < ps.len()
                invariant
                    i <= ps@.len(),
                    tps.len() == ps@.len(),
                    yaml_tree(*v) == YamlTree::Pairs(tps),
                    forall|j: int| 0 <= j < ps@.len() ==> tps[j] == (yaml_tree(ps@[j].0), yaml_tree(ps@[j].1)),
                    out@.len() == i,
                    forall|j: int| 0 <= j < i ==> (#[trigger] tps[j]).0 is Str && is_scalar(tps[j].1),
                    forall|j: int| 0 <= j < i ==> (#[trigger] out@[j]).0@ == tps[j].0->Str_0 && out@[j].1.view() == tps[j].1,
                decreases ps@.len() - i,
            {
                assert(tps[i as int] == (yaml_tree(ps@[i as int].0), yaml_tree(ps@[i as int].1)));
                let key = match split(&ps[i].0) {
                    Node::Str(k) => k,
                    _ => {
                        assert(!(tps[i as int].0 is Str && is_scalar(tps[i as int].1)));
                        return None;
                    },
                };
                let val = match scalar_from(&ps[i].1) {
                    Some(x) => x,
                    None => {
                        assert(!(tps[i as int].0 is Str && is_scalar(tps[i as int].1)));
                        return None;
                    },
                };
                out.push((key, val));
                i = i + 1;
            }
            assert(args_view(out@) =~= tps.map_values(|p: (YamlTree, YamlTree)| (p.0->Str_0, p.1)));
            Some(out)
        },
        _ => None,
    }
}

/// The invocation that a parsed document holds.
fn invocation_from(v: &serde_yaml::Value) -> (r: Option<Invocation>)
    ensures
        opt_view(r) == invocation_of(yaml_tree(*v)),
{
    match split(v) {
        Node::Pairs(ps) => {
            if ps.len() == 0 {
                return None;
            }
            assert(yaml_tree(ps@[0].0) == (yaml_tree(*v)->Pairs_0)[0].0);
            let name = match split(&ps[0].0) {
                Node::Str(k) => k,
                _ => {
                    return None;
                },
            };
            match args_from(&ps[0].1) {
                Some(args) => Some(Invocation { name, args }),
                None => None,
            }
        },
        _ => None,
    }
}

/// Reads a text as one YAML document and keeps the first entry of the
/// mapping it holds, dropping any others.
pub fn parse_and_normalize_yaml(input: &str) -> (r: Option<Invocation>)
    ensures
        opt_view(r) == parsed_invocation(input@),
{
    match parse_yaml(input) {
        Some(v) => invocation_from(&v),
        None => None,
    }
}

/// The text up to its first blank line.
pub fn head_before_blank_line(s: &str) -> (r: String)
    ensures
        r@ == head_of(s@),
{
    let cs = chars_of(s);
    let mut i: usize = 0;
    let mut end: usize = cs.len();
    while i < cs.len()
        invariant_except_break
            end == cs@.len(),
        invariant
            cs@ == s@,
            i <= cs@.len(),
            first_blank_line(s@, 0) == first_blank_line(s@, i as int),
        ensures
            end == first_blank_line(s@, 0),
            end <= cs@.len(),
        decreases cs@.len() - i,
    {
        if i + 1 >= cs.len() {
            break;
        }
        if cs[i] == '\n' && cs[i + 1] == '\n' {
            end = i;
            break;
        }
        i = i + 1;
    }
    let mut head: Vec<char> = Vec::new();
    let mut j: usize = 0;
    while j < end
        invariant
            cs@ == s@,
            end <= cs@.len(),
            j <= end,
            head@ =~= cs@.subrange(0, j as int),
        decreases end - j,
    {
        head.push(cs[j]);
        j = j + 1;
    }
    string_of(head.as_slice())
}

/// Reads the invocation from a trimmed response: the whole text, else the
/// text before its first blank line (which drops trailing commentary).
pub fn parse_tool_response_yaml(trimmed: &str) -> (r: Option<Invocation>)
    ensures
        opt_view(r) == match parsed_invocation(trimmed@) {
            Some(i) => Some(i),
            None => parsed_invocation(head_of(trimmed@)),
        },
{
    match parse_and_normalize_yaml(trimmed) {
        Some(i) => Some(i),
        None => {
            let head = head_before_blank_line(trimmed);
            parse_and_normalize_yaml(head.as_str())
        },
    }
}

/// The invocation for a trimmed response: the text read in the format,
/// else the text before its first blank line, else a call of the mode's
/// finish tool with the text as its message.
pub fn normalize_trimmed(t: &str, plan_mode: bool, format: ToolResponseFormat) -> (r: Invocation)
    ensures
        r.view() == normalized(t@, plan_mode, format),
{
    let found = match parse_tool_response(format, t) {
        Some(i) => Some(i),
        None => {
            let head = head_before_blank_line(t);
            parse_tool_response(format, head.as_str())
        },
    };
    match found {
        Some(i) => i,
        None => {
            let args = vec![(owned("message"), Scalar::Text(owned(t)))];
            proof {
                assert(args_view(args@) =~= seq![("message"@, YamlTree::Str(t@))]);
            }
            Invocation { name: owned(finish_tool(plan_mode).name()), args }
        },
    }
}

/// Turns a model response into exactly one invocation. An empty response
/// gives `None`, to be retried; text that holds no invocation becomes a call
/// of the mode's finish tool with the text as its message.
pub fn normalize_response(raw: &str, plan_mode: bool, format: ToolResponseFormat) -> (r: Option<Invocation>)
    ensures
        r is None <==> trimmed(raw@).len() == 0,
        r matches Some(i) ==> i.view() == normalized(trimmed(raw@), plan_mode, format),
{
    let t = trim(raw);
    if chars_of(t).len() == 0 {
        return None;
    }
    Some(normalize_trimmed(t, plan_mode, format))
}

/// An invocation written back as a mapping: its name to the mapping of its
/// arguments.
pub open spec fn invocation_tree(i: InvocationView) -> YamlTree {
    YamlTree::Pairs(
        seq![
            (
                YamlTree::Str(i.0),
                YamlTree::Pairs(i.1.map_values(|a: (Seq<char>, YamlTree)| (YamlTree::Str(a.0), a.1))),
            ),
        ],
    )
}

/// A mapping from string keys to scalars.
pub open spec fn scalar_pairs(args: Seq<(YamlTree, YamlTree)>) -> bool {
    forall|i: int| 0 <= i < args.len() ==> (#[trigger] args[i]).0 is Str && is_scalar(args[i].1)
}

proof fn lemma_entry_round_trip(name: Seq<char>, args: Seq<(YamlTree, YamlTree)>)
    requires
        scalar_pairs(args),
    ensures
        invocation_of(YamlTree::Pairs(seq![(YamlTree::Str(name), YamlTree::Pairs(args))])) is Some,
        invocation_tree(
            invocation_of(YamlTree::Pairs(seq![(YamlTree::Str(name), YamlTree::Pairs(args))]))->Some_0,
        ) == YamlTree::Pairs(seq![(YamlTree::Str(name), YamlTree::Pairs(args))]),
{
    let t = YamlTree::Pairs(seq![(YamlTree::Str(name), YamlTree::Pairs(args))]);
    let i = invocation_of(t)->Some_0;
    assert(i.1.map_values(|a: (Seq<char>, YamlTree)| (YamlTree::Str(a.0), a.1)) =~= args);
    assert(invocation_tree(i) =~= t);
}

/// A response that already holds a single tool call, a one-entry mapping
/// from a name to a mapping of string keys to scalars, normalizes to that
/// same mapping.
pub proof fn lemma_single_key_unchanged(
    s: Seq<char>,
    plan_mode: bool,
    name: Seq<char>,
    args: Seq<(YamlTree, YamlTree)>,
)
    requires
        yaml_of(s) == Some(YamlTree::Pairs(seq![(YamlTree::Str(name), YamlTree::Pairs(args))])),
        scalar_pairs(args),
    ensures
        invocation_tree(normalized(s, plan_mode, ToolResponseFormat::Yaml)) == yaml_of(s)->Some_0,
{
    lemma_entry_round_trip(name, args);
}

/// A mapping with several entries normalizes to the one-entry mapping of
/// its first entry: the entries after it are dropped.
pub proof fn lemma_multi_key_pruning(
    s: Seq<char>,
    plan_mode: bool,
    ps: Seq<(YamlTree, YamlTree)>,
    name: Seq<char>,
    args: Seq<(YamlTree, YamlTree)>,
)
    requires
        yaml_of(s) == Some(YamlTree::Pairs(ps)),
        ps.len() > 1,
        ps[0] == (YamlTree::Str(name), YamlTree::Pairs(args)),
        scalar_pairs(args),
    ensures
        invocation_tree(normalized(s, plan_mode, ToolResponseFormat::Yaml)) == YamlTree::Pairs(seq![ps[0]]),
        normalized(s, plan_mode, ToolResponseFormat::Yaml).0 == name,
{
    lemma_entry_round_trip(name, args);
}

/// A response that holds no tool call, whole or before its first blank
/// line, becomes a call of the mode's finish tool whose one argument,
/// `message`, is the response itself.
pub proof fn lemma_unparseable_fallback(s: Seq<char>, plan_mode: bool, format: ToolResponseFormat)
    requires
        invocation_in(format, s) is None,
        invocation_in(format, head_of(s)) is None,
    ensures
        normalized(s, plan_mode, format) == fallback_of(s, plan_mode),
        normalized(s, plan_mode, format).1 == seq![("message"@, YamlTree::Str(s))],
{
}

/// Relies on `str::to_lowercase`: the text in lower case.
pub uninterp spec fn lower_of(s: Seq<char>) -> Seq<char>;

/// Relies on `str::to_lowercase`.
#[verifier::external_body]
fn lowercase(s: &str) -> (r: String)
    ensures
        r@ == lower_of(s@),
{
    s.to_lowercase()
}

pub open spec fn format_named(name: Seq<char>) -> Option<ToolResponseFormat> {
    if name == "yaml"@ {
        Some(ToolResponseFormat::Yaml)
    } else if name == "json"@ {
        Some(ToolResponseFormat::JsonVariableKeys)
    } else if name == "json_fixed_key"@ {
        Some(ToolResponseFormat::JsonFixedKeys)
    } else {
        None
    }
}

impl ToolResponseFormat {
    pub fn default() -> (r: ToolResponseFormat)
        ensures
            r == ToolResponseFormat::Yaml,
    {
        ToolResponseFormat::Yaml
    }

    /// The format named by `s`, in any case.
    pub fn from_str(s: &str) -> (r: Result<ToolResponseFormat, String>)
        ensures
            match r {
                Ok(f) => format_named(lower_of(s@)) == Some(f),
                Err(e) => format_named(lower_of(s@)) is None && e@ == "Invalid format: "@ + s@
                    + ". Valid options: yaml, json, json_fixed_key"@,
            },
    {
        let lower = lowercase(s);
        match ToolResponseFormat::from_lowercase_name(lower.as_str()) {
            Some(f) => Ok(f),
            None => {
                let mut e = concat2("Invalid format: ", s);
                push_str(&mut e, ". Valid options: yaml, json, json_fixed_key");
                Err(e)
            },
        }
    }

    /// The format with the given name, already in lower case.
    pub fn from_lowercase_name(name: &str) -> (r: Option<ToolResponseFormat>)
        ensures
            r == format_named(name@),
    {
        if str_eq(name, "yaml") {
            Some(ToolResponseFormat::Yaml)
        } else if str_eq(name, "json") {
            Some(ToolResponseFormat::JsonVariableKeys)
        } else if str_eq(name, "json_fixed_key") {
            Some(ToolResponseFormat::JsonFixedKeys)
        } else {
            None
        }
    }
}

fn json_scalar(v: &serde_json::Value) -> (r: Option<Scalar>)
    ensures
        r is Some <==> is_scalar(json_tree(*v)),
        r matches Some(x) ==> x.view() == json_tree(*v),
{
    match split_json(v) {
        JsonNode::Null => Some(Scalar::Null),
        JsonNode::Bool(b) => Some(Scalar::Bool(b)),
        JsonNode::Number(s) => Some(Scalar::Number(s)),
        JsonNode::Str(s) => Some(Scalar::Text(s)),
        _ => None,
    }
}

fn json_args(v: &serde_json::Value) -> (r: Option<Vec<(String, Scalar)>>)
    ensures
        r is Some <==> args_of(json_tree(*v)) is Some,
        r matches Some(a) ==> args_view(a@) == args_of(json_tree(*v))->Some_0,
{
    match split_json(v) {
        JsonNode::Null => {
            let out: Vec<(String, Scalar)> = Vec::new();
            assert(args_view(out@) =~= Seq::empty());
            Some(out)
        },
        JsonNode::Pairs(ps) => {
            let ghost tps = ps@.map_values(
                |p: (String, serde_json::Value)| (YamlTree::Str(p.0@), json_tree(p.1)),
            );
            let mut out: Vec<(String, Scalar)> = Vec::new();
            let mut i: usize = 0;
            while i < ps.len()
                invariant
                    i <= ps@.len(),
                    tps.len() == ps@.len(),
                    json_tree(*v) == YamlTree::Pairs(tps),
                    forall|j: int| 0 <= j < ps@.len() ==> tps[j] == (YamlTree::Str(ps@[j].0@), json_tree(ps@[j].1)),
                    out@.len() == i,
                    forall|j: int| 0 <= j < i ==> (#[trigger] tps[j]).0 is Str && is_scalar(tps[j].1),
                    forall|j: int| 0 <= j < i ==> (#[trigger] out@[j]).0@ == tps[j].0->Str_0 && out@[j].1.view() == tps[j].1,
                decreases ps@.len() - i,
            {
                assert(tps[i as int] == (YamlTree::Str(ps@[i as int].0@), json_tree(ps@[i as int].1)));
                let val = match json_scalar(&ps[i].1) {
                    Some(x) => x,
                    None => {
                        assert(!(tps[i as int].0 is Str && is_scalar(tps[i as int].1)));
                        return None;
                    },
                };
                out.push((ps[i].0.clone(), val));
                i = i + 1;
            }
            assert(args_view(out@) =~= tps.map_values(|p: (YamlTree, YamlTree)| (p.0->Str_0, p.1)));
            Some(out)
        },
        _ => None,
    }
}

/// The first entry of a JSON object, as a call.
fn json_invocation(v: &serde_json::Value) -> (r: Option<Invocation>)
    ensures
        opt_view(r) == invocation_of(json_tree(*v)),
{
    match split_json(v) {
        JsonNode::Pairs(ps) => {
            if ps.len() == 0 {
                return None;
            }
            assert((json_tree(*v)->Pairs_0)[0] == (YamlTree::Str(ps@[0].0@), json_tree(ps@[0].1)));
            match json_args(&ps[0].1) {
                Some(args) => Some(Invocation { name: ps[0].0.clone(), args }),
                None => None,
            }
        },
        _ => None,
    }
}

/// The index of the entry under `key`.
fn json_entry(ps: &Vec<(String, serde_json::Value)>, key: &str) -> (r: Option<usize>)
    ensures
        match r {
            Some(i) => i < ps@.len() && crate::prompt::find_field(
                ps@.map_values(|p: (String, serde_json::Value)| (YamlTree::Str(p.0@), json_tree(p.1))),
                key@,
            ) == Some(json_tree(ps@[i as int].1)),
            None => crate::prompt::find_field(
                ps@.map_values(|p: (String, serde_json::Value)| (YamlTree::Str(p.0@), json_tree(p.1))),
                key@,
            ) is None,
        },
{
    let ghost tps = ps@.map_values(|p: (String, serde_json::Value)| (YamlTree::Str(p.0@), json_tree(p.1)));
    assert(tps.subrange(0, tps.len() as int) =~= tps);
    let mut i: usize = 0;
    while i < ps.len()
        invariant
            i <= ps@.len(),
            tps.len() == ps@.len(),
            tps == ps@.map_values(|p: (String, serde_json::Value)| (YamlTree::Str(p.0@), json_tree(p.1))),
            crate::prompt::find_field(tps, key@) == crate::prompt::find_field(
                tps.subrange(i as int, tps.len() as int),
                key@,
            ),
        decreases ps@.len() - i,
    {
        let ghost rest = tps.subrange(i as int, tps.len() as int);
        assert(rest[0] == tps[i as int]);
        assert(rest.drop_first() =~= tps.subrange(i + 1, tps.len() as int));
        if str_eq(ps[i].0.as_str(), key) {
            return Some(i);
        }
        i = i + 1;
    }
    None
}

/// The call that a JSON object with fixed keys holds.
fn json_fixed_invocation(v: &serde_json::Value) -> (r: Option<Invocation>)
    ensures
        opt_view(r) == fixed_invocation_of(json_tree(*v)),
{
    match split_json(v) {
        JsonNode::Pairs(ps) => {
            let t = match json_entry(&ps, "tool") {
                Some(t) => t,
                None => {
                    return None;
                },
            };
            let name = match split_json(&ps[t].1) {
                JsonNode::Str(n) => n,
                _ => {
                    return None;
                },
            };
            let a = match json_entry(&ps, "tool_args") {
                Some(a) => a,
                None => {
                    return None;
                },
            };
            match json_args(&ps[a].1) {
                Some(args) => Some(Invocation { name, args }),
                None => None,
            }
        },
        _ => None,
    }
}

/// Reads the call from a text in the given format.
pub fn parse_tool_response(format: ToolResponseFormat, input: &str) -> (r: Option<Invocation>)
    ensures
        opt_view(r) == invocation_in(format, input@),
{
    match format {
        ToolResponseFormat::Yaml => parse_and_normalize_yaml(input),
        ToolResponseFormat::JsonVariableKeys => match parse_json(input) {
            Some(v) => json_invocation(&v),
            None => None,
        },
        ToolResponseFormat::JsonFixedKeys => match parse_json(input) {
            Some(v) => json_fixed_invocation(&v),
            None => None,
        },
    }
}

} // verus!
