//! The system prompt, assembled from the fields of a YAML template that a
//! user file may override, and the user's configuration file.

use vstd::prelude::*;
use crate::text::{chars_of, owned, push_str, string_of};
use crate::yaml::{parse_yaml, split, yaml_of, yaml_tree, Node, YamlTree};

verus! {

/// The value of the first entry whose key is the string `key`.
pub open spec fn find_field(ps: Seq<(YamlTree, YamlTree)>, key: Seq<char>) -> Option<YamlTree>
    decreases ps.len(),
{
    if ps.len() == 0 {
        None
    } else if ps[0].0 == YamlTree::Str(key) {
        Some(ps[0].1)
    } else {
        find_field(ps.drop_first(), key)
    }
}

/// The value under `key` in a mapping.
pub open spec fn field(t: YamlTree, key: Seq<char>) -> Option<YamlTree> {
    match t {
        YamlTree::Pairs(ps) => find_field(ps, key),
        _ => None,
    }
}

/// The string under `key`, or empty where there is none.
pub open spec fn field_str(t: YamlTree, key: Seq<char>) -> Seq<char> {
    match field(t, key) {
        Some(YamlTree::Str(s)) => s,
        _ => Seq::empty(),
    }
}

/// The string under `key` once the user's mapping is laid over the base
/// mapping: the user's entry where it has one.
pub open spec fn merged_str(base: YamlTree, user: Option<YamlTree>, key: Seq<char>) -> Seq<char> {
    match user {
        Some(u) => if base is Pairs && u is Pairs && field(u, key) is Some {
            field_str(u, key)
        } else {
            field_str(base, key)
        },
        None => field_str(base, key),
    }
}

/// Every `{}` in `s` replaced by `w`, left to right.
pub open spec fn fill(s: Seq<char>, w: Seq<char>) -> Seq<char>
    decreases s.len(),
{
    if s.len() < 2 {
        s
    } else if s[0] == '{' && s[1] == '}' {
        w + fill(s.subrange(2, s.len() as int), w)
    } else {
        seq![s[0]] + fill(s.drop_first(), w)
    }
}

/// `s` without its leading newlines.
pub open spec fn skip_newlines(s: Seq<char>) -> Seq<char>
    decreases s.len(),
{
    if s.len() > 0 && s[0] == '\n' {
        skip_newlines(s.drop_first())
    } else {
        s
    }
}

/// The whole prompt: the role, the task, the working directory with the
/// optional instructions-file and planning notes, the tools and the
/// examples, in blocks separated by blank lines.
pub open spec fn prompt_text(
    base: YamlTree,
    user: Option<YamlTree>,
    current_dir: Seq<char>,
    agents_md: bool,
    plan_mode: bool,
    tools_text: Seq<char>,
) -> Seq<char> {
    let f = |k: Seq<char>| merged_str(base, user, k);
    f("role_and_format"@) + "\n\n"@ + f("task"@) + "\n\n"@ + fill(f("current_dir"@), current_dir)
        + (if agents_md {
        f("agents_md"@)
    } else {
        Seq::empty()
    }) + (if plan_mode {
        f("plan_mode"@)
    } else {
        Seq::empty()
    }) + "\n\n"@ + fill(f("tools"@), tools_text) + "\n\n"@ + skip_newlines(f("examples"@))
}

/// The value under `key` in a mapping: whether there is one, and the string
/// it holds, or empty.
fn lookup(v: &serde_yaml::Value, key: &str) -> (r: (bool, String))
    ensures
        r.0 == field(yaml_tree(*v), key@) is Some,
        r.1@ == field_str(yaml_tree(*v), key@),
{
    match field_node(v, key) {
        Some(Node::Str(s)) => (true, s),
        Some(_) => (true, String::new()),
        None => (false, String::new()),
    }
}

/// The string under `key` of the base mapping with the user's laid over it.
fn merged_field(base: &serde_yaml::Value, user: &Option<serde_yaml::Value>, key: &str) -> (r: String)
    ensures
        r@ == merged_str(
            yaml_tree(*base),
            match *user {
                Some(u) => Some(yaml_tree(u)),
                None => None,
            },
            key@,
        ),
{
    let base_is_map = match split(base) {
        Node::Pairs(_) => true,
        _ => false,
    };
    if base_is_map {
        match user {
            Some(u) => {
                let user_is_map = match split(u) {
                    Node::Pairs(_) => true,
                    _ => false,
                };
                if user_is_map {
                    let (found, s) = lookup(u, key);
                    if found {
                        return s;
                    }
                }
            },
            None => {},
        }
    }
    lookup(base, key).1
}

/// Every `{}` in `s` replaced by `w`.
pub fn fill_braces(s: &str, w: &str) -> (r: String)
    ensures
        r@ == fill(s@, w@),
{
    let cs = chars_of(s);
    let ws = chars_of(w);
    let mut out: Vec<char> = Vec::new();
    let mut i: usize = 0;
    assert(cs@.subrange(0, cs@.len() as int) =~= cs@);
    assert(out@ + fill(s@, w@) =~= fill(s@, w@));
    while i < cs.len()
        invariant
            cs@ == s@,
            ws@ == w@,
            i <= cs@.len(),
            out@ + fill(cs@.subrange(i as int, cs@.len() as int), w@) == fill(s@, w@),
        decreases cs@.len() - i,
    {
        let ghost rest = cs@.subrange(i as int, cs@.len() as int);
        if i + 1 < cs.len() && cs[i] == '{' && cs[i + 1] == '}' {
            let ghost before = out@;
            let mut j: usize = 0;
            while j < ws.len()
                invariant
                    ws@ == w@,
                    j <= ws@.len(),
                    out@ == before + ws@.subrange(0, j as int),
                decreases ws@.len() - j,
            {
                out.push(ws[j]);
                j = j + 1;
                assert(out@ =~= before + ws@.subrange(0, j as int));
            }
            assert(rest.subrange(2, rest.len() as int) =~= cs@.subrange(i + 2, cs@.len() as int));
            assert(ws@.subrange(0, ws@.len() as int) =~= w@);
            assert(out@ + fill(cs@.subrange(i + 2, cs@.len() as int), w@) =~= before + fill(rest, w@));
            i = i + 2;
        } else {
            let ghost before = out@;
            out.push(cs[i]);
            assert(rest.drop_first() =~= cs@.subrange(i + 1, cs@.len() as int));
            proof {
                if rest.len() >= 2 {
                    assert(fill(rest, w@) == seq![rest[0]] + fill(rest.drop_first(), w@));
                }
            }
            assert(out@ + fill(cs@.subrange(i + 1, cs@.len() as int), w@) =~= before + fill(rest, w@));
            i = i + 1;
        }
    }
    assert(cs@.subrange(i as int, cs@.len() as int) =~= Seq::<char>::empty());
    assert(out@ + Seq::<char>::empty() =~= out@);
    string_of(out.as_slice())
}

/// `s` without its leading newlines.
pub fn skip_leading_newlines(s: &str) -> (r: String)
    ensures
        r@ == skip_newlines(s@),
{
    let cs = chars_of(s);
    let mut i: usize = 0;
    assert(cs@.subrange(0, cs@.len() as int) =~= cs@);
    while i < cs.len() && cs[i] == '\n'
        invariant
            cs@ == s@,
            i <= cs@.len(),
            skip_newlines(s@) == skip_newlines(cs@.subrange(i as int, cs@.len() as int)),
        decreases cs@.len() - i,
    {
        assert(cs@.subrange(i as int, cs@.len() as int).drop_first() =~= cs@.subrange(i + 1, cs@.len() as int));
        i = i + 1;
    }
    let mut out: Vec<char> = Vec::new();
    let mut j: usize = i;
    while j < cs.len()
        invariant
            cs@ == s@,
            i <= j <= cs@.len(),
            out@ =~= cs@.subrange(i as int, j as int),
        decreases cs@.len() - j,
    {
        out.push(cs[j]);
        j = j + 1;
    }
    string_of(out.as_slice())
}

/// Assembles the system prompt from the base template and the user's
/// overrides, both YAML texts. `None` where either text is not YAML.
pub fn format_system_prompt_from_yaml(
    base_text: &str,
    user_text: Option<&str>,
    current_dir: &str,
    agents_md: bool,
    plan_mode: bool,
    available_tools_text: &str,
) -> (r: Option<String>)
    ensures
        r is Some <==> yaml_of(base_text@) is Some && match user_text {
            Some(u) => yaml_of(u@) is Some,
            None => true,
        },
        r matches Some(p) ==> p@ == prompt_text(
            yaml_of(base_text@)->Some_0,
            match user_text {
                Some(u) => Some(yaml_of(u@)->Some_0),
                None => None,
            },
            current_dir@,
            agents_md,
            plan_mode,
            available_tools_text@,
        ),
{
    let base = match parse_yaml(base_text) {
        Some(b) => b,
        None => {
            return None;
        },
    };
    let user = match user_text {
        Some(u) => match parse_yaml(u) {
            Some(v) => Some(v),
            None => {
                return None;
            },
        },
        None => None,
    };
    let role = merged_field(&base, &user, "role_and_format");
    let task = merged_field(&base, &user, "task");
    let dir = merged_field(&base, &user, "current_dir");
    let tools = merged_field(&base, &user, "tools");
    let examples = merged_field(&base, &user, "examples");
    let mut out = role;
    push_str(&mut out, "\n\n");
    push_str(&mut out, task.as_str());
    push_str(&mut out, "\n\n");
    push_str(&mut out, fill_braces(dir.as_str(), current_dir).as_str());
    if agents_md {
        push_str(&mut out, merged_field(&base, &user, "agents_md").as_str());
    } else {
        proof {
            assert(out@ + Seq::<char>::empty() =~= out@);
        }
    }
    if plan_mode {
        push_str(&mut out, merged_field(&base, &user, "plan_mode").as_str());
    } else {
        proof {
            assert(out@ + Seq::<char>::empty() =~= out@);
        }
    }
    push_str(&mut out, "\n\n");
    push_str(&mut out, fill_braces(tools.as_str(), available_tools_text).as_str());
    push_str(&mut out, "\n\n");
    push_str(&mut out, skip_leading_newlines(examples.as_str()).as_str());
    Some(out)
}

/// The model used when the configuration names none.
pub open spec fn default_model_name() -> Seq<char> {
    "mistralai/mistral-small-3.1-24b-instruct"@
}

/// The user's configuration.
pub struct Config {
    pub model: Option<String>,
}

/// The configuration that a YAML text holds: a mapping whose `model`, if
/// present and not empty, is a string. Other entries are ignored.
pub open spec fn config_of(t: YamlTree) -> Option<Option<Seq<char>>> {
    if t is Pairs {
        match field(t, "model"@) {
            None => Some(None),
            Some(YamlTree::Null) => Some(None),
            Some(YamlTree::Str(s)) => Some(Some(s)),
            _ => None,
        }
    } else {
        None
    }
}

impl Config {
    /// Reads a configuration; `None` where the text does not hold one.
    pub fn from_yaml(text: &str) -> (r: Option<Config>)
        ensures
            match r {
                Some(c) => yaml_of(text@) is Some && config_of(yaml_of(text@)->Some_0) == Some(
                    match c.model {
                        Some(m) => Some(m@),
                        None => None,
                    },
                ),
                None => yaml_of(text@) is None || config_of(yaml_of(text@)->Some_0) is None,
            },
    {
        let v = match parse_yaml(text) {
            Some(v) => v,
            None => {
                return None;
            },
        };
        match split(&v) {
            Node::Pairs(ps) => {},
            _ => {
                return None;
            },
        }
        let (found, s) = lookup(&v, "model");
        if !found {
            return Some(Config { model: None });
        }
        match split(&v) {
            Node::Pairs(ps) => {
                let ghost tps = ps@.map_values(
                    |p: (serde_yaml::Value, serde_yaml::Value)| (yaml_tree(p.0), yaml_tree(p.1)),
                );
                assert(tps =~= yaml_tree(v)->Pairs_0);
            },
            _ => {},
        }
        model_of(&v, s)
    }

    /// The configured model, or the default one.
    pub fn model_or_default(&self) -> (r: String)
        ensures
            r@ == match self.model {
                Some(m) => m@,
                None => default_model_name(),
            },
    {
        match &self.model {
            Some(m) => m.clone(),
            None => owned("mistralai/mistral-small-3.1-24b-instruct"),
        }
    }
}

/// The configuration of a mapping that has a `model` entry, whose string is
/// `s` where it is one.
fn model_of(v: &serde_yaml::Value, s: String) -> (r: Option<Config>)
    requires
        yaml_tree(*v) is Pairs,
        field(yaml_tree(*v), "model"@) is Some,
        s@ == field_str(yaml_tree(*v), "model"@),
    ensures
        config_of(yaml_tree(*v)) == match r {
            Some(c) => Some(
                match c.model {
                    Some(m) => Some(m@),
                    None => None,
                },
            ),
            None => None,
        },
{
    match field_node(v, "model") {
        Some(Node::Str(_)) => Some(Config { model: Some(s) }),
        Some(Node::Null) => Some(Config { model: None }),
        _ => None,
    }
}

/// One level of the node under `key` in a mapping.
pub fn field_node(v: &serde_yaml::Value, key: &str) -> (r: Option<Node>)
    ensures
        match r {
            Some(n) => field(yaml_tree(*v), key@) matches Some(t) && crate::yaml::node_of(n, t),
            None => field(yaml_tree(*v), key@) is None,
        },
{
    match split(v) {
        Node::Pairs(ps) => {
            let ghost tps = ps@.map_values(
                |p: (serde_yaml::Value, serde_yaml::Value)| (yaml_tree(p.0), yaml_tree(p.1)),
            );
            assert(tps.subrange(0, tps.len() as int) =~= tps);
            let mut i: usize = 0;
            while i < ps.len()
                invariant
                    i <= ps@.len(),
                    tps.len() == ps@.len(),
                    yaml_tree(*v) == YamlTree::Pairs(tps),
                    forall|j: int| 0 <= j < ps@.len() ==> tps[j] == (yaml_tree(ps@[j].0), yaml_tree(ps@[j].1)),
                    find_field(tps, key@) == find_field(tps.subrange(i as int, tps.len() as int), key@),
                decreases ps@.len() - i,
            {
                let ghost rest = tps.subrange(i as int, tps.len() as int);
                assert(rest[0] == tps[i as int]);
                assert(rest.drop_first() =~= tps.subrange(i + 1, tps.len() as int));
                let hit = match split(&ps[i].0) {
                    Node::Str(k) => crate::text::str_eq(k.as_str(), key),
                    _ => false,
                };
                if hit {
                    return Some(split(&ps[i].1));
                }
                i = i + 1;
            }
            None
        },
        _ => None,
    }
}

} // verus!
