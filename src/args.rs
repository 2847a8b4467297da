//! Reading an invocation's arguments: the string under a key, the primary
//! argument of a call, and the one-line rendering used in failure markers.

use vstd::prelude::*;
use crate::normalize::{args_view, Scalar};
use crate::text::{push_str, str_eq};
use crate::yaml::YamlTree;

verus! {

/// The string under `key`: the first entry with that key, if its value is a
/// string; otherwise empty.
pub open spec fn arg_str(args: Seq<(Seq<char>, YamlTree)>, key: Seq<char>) -> Seq<char>
    decreases args.len(),
{
    if args.len() == 0 {
        Seq::empty()
    } else if args[0].0 == key {
        match args[0].1 {
            YamlTree::Str(s) => s,
            _ => Seq::empty(),
        }
    } else {
        arg_str(args.drop_first(), key)
    }
}

/// The key of the argument that a tool, known by name, acts on.
pub open spec fn primary_key_of(name: Seq<char>) -> Seq<char> {
    if name == "execute_shell_command"@ {
        "command"@
    } else if name == "read_file"@ || name == "write_file"@ {
        "path"@
    } else {
        ""@
    }
}

/// One argument as the failure marker shows it: strings quoted, other
/// scalars as their text.
pub open spec fn arg_piece(a: (Seq<char>, YamlTree)) -> Seq<char> {
    match a.1 {
        YamlTree::Str(s) => a.0 + ": '"@ + s + "'"@,
        YamlTree::Bool(b) => a.0 + ": "@ + if b {
            "true"@
        } else {
            "false"@
        },
        YamlTree::Number(n) => a.0 + ": "@ + n,
        _ => a.0 + ": null"@,
    }
}

/// The first `n` arguments, separated by spaces.
pub open spec fn args_line(args: Seq<(Seq<char>, YamlTree)>, n: int) -> Seq<char>
    decreases n,
{
    if n <= 0 {
        Seq::empty()
    } else if n == 1 {
        arg_piece(args[0])
    } else {
        args_line(args, n - 1) + " "@ + arg_piece(args[n - 1])
    }
}

pub open spec fn args_text(args: Seq<(Seq<char>, YamlTree)>) -> Seq<char> {
    args_line(args, args.len() as int)
}

/// The string under `key`.
pub fn arg_string(args: &Vec<(String, Scalar)>, key: &str) -> (r: String)
    ensures
        r@ == arg_str(args_view(args@), key@),
{
    let ghost all = args_view(args@);
    assert(all.subrange(0, all.len() as int) =~= all);
    let mut i: usize = 0;
    while i < args.len()
        invariant
            i <= args@.len(),
            all == args_view(args@),
            arg_str(all, key@) == arg_str(all.subrange(i as int, all.len() as int), key@),
        decreases args@.len() - i,
    {
        let ghost rest = all.subrange(i as int, all.len() as int);
        assert(rest[0] == (args@[i as int].0@, args@[i as int].1.view()));
        if str_eq(args[i].0.as_str(), key) {
            return match &args[i].1 {
                Scalar::Text(s) => s.clone(),
                _ => String::new(),
            };
        }
        assert(rest.drop_first() =~= all.subrange(i + 1, all.len() as int));
        i = i + 1;
    }
    String::new()
}

/// The key of the argument that a tool, known by name, acts on.
pub fn primary_key_for(name: &str) -> (r: &'static str)
    ensures
        r@ == primary_key_of(name@),
{
    if str_eq(name, "execute_shell_command") {
        "command"
    } else if str_eq(name, "read_file") || str_eq(name, "write_file") {
        "path"
    } else {
        ""
    }
}

/// The primary argument of a call: the string under its tool's primary key.
pub fn primary_value(name: &str, args: &Vec<(String, Scalar)>) -> (r: String)
    ensures
        r@ == arg_str(args_view(args@), primary_key_of(name@)),
{
    arg_string(args, primary_key_for(name))
}

fn push_piece(out: &mut String, key: &String, v: &Scalar)
    ensures
        final(out)@ == old(out)@ + arg_piece((key@, v.view())),
{
    push_str(out, key.as_str());
    match v {
        Scalar::Text(s) => {
            push_str(out, ": '");
            push_str(out, s.as_str());
            push_str(out, "'");
        },
        Scalar::Bool(b) => {
            push_str(out, ": ");
            push_str(out, if *b { "true" } else { "false" });
        },
        Scalar::Number(n) => {
            push_str(out, ": ");
            push_str(out, n.as_str());
        },
        Scalar::Null => {
            push_str(out, ": null");
        },
    }
}

/// The arguments on one line, as the failure marker shows them.
pub fn compute_args_str(args: &Vec<(String, Scalar)>) -> (r: String)
    ensures
        r@ == args_text(args_view(args@)),
{
    let ghost all = args_view(args@);
    let mut out = String::new();
    let mut i: usize = 0;
    while i < args.len()
        invariant
            i <= args@.len(),
            all == args_view(args@),
            out@ == args_line(all, i as int),
        decreases args@.len() - i,
    {
        if i > 0 {
            push_str(&mut out, " ");
        }
        push_piece(&mut out, &args[i].0, &args[i].1);
        i = i + 1;
    }
    out
}

} // verus!
