//! The lines that a run shows while it goes: each call, its result, its
//! failure and the closing summary.

use vstd::prelude::*;
use crate::text::{chars_of, concat2, owned, push_str, string_of};

verus! {

pub open spec fn call_line(tool: Seq<char>, primary: Seq<char>) -> Seq<char> {
    "--- ["@ + tool + " "@ + primary + "]"@
}

pub open spec fn record_line(tool: Seq<char>, primary: Seq<char>) -> Seq<char> {
    "["@ + tool + " "@ + primary + "]"@
}

/// At most the first `n` characters.
pub open spec fn prefix_of(s: Seq<char>, n: nat) -> Seq<char> {
    if s.len() <= n {
        s
    } else {
        s.subrange(0, n as int)
    }
}

/// The line that announces a call.
pub fn tool_call_line(tool: &str, primary: &str) -> (r: String)
    ensures
        r@ == call_line(tool@, primary@),
{
    let mut r = concat2("--- [", tool);
    push_str(&mut r, " ");
    push_str(&mut r, primary);
    push_str(&mut r, "]");
    r
}

/// A summary line for one call.
pub fn summary_line(tool: &str, primary: &str) -> (r: String)
    ensures
        r@ == record_line(tool@, primary@),
{
    let mut r = concat2("[", tool);
    push_str(&mut r, " ");
    push_str(&mut r, primary);
    push_str(&mut r, "]");
    r
}

/// The first `n` characters of a text, or all of it.
pub fn first_chars(s: &str, n: usize) -> (r: String)
    ensures
        r@ == prefix_of(s@, n as nat),
{
    let cs = chars_of(s);
    let mut out: Vec<char> = Vec::new();
    let mut i: usize = 0;
    while i < cs.len() && i < n
        invariant
            cs@ == s@,
            i <= cs@.len(),
            i <= n,
            out@ =~= cs@.subrange(0, i as int),
        decreases cs@.len() - i,
    {
        out.push(cs[i]);
        i = i + 1;
    }
    assert(out@ =~= prefix_of(s@, n as nat));
    string_of(out.as_slice())
}

/// The summary of a run: a heading, then one line per call in order.
pub fn summary_lines(tool_calls: &Vec<(String, String)>) -> (r: Vec<String>)
    ensures
        r@.len() == tool_calls@.len() + 1,
        r@[0]@ == "--- Task tool usage summary"@,
        forall|i: int|
            0 <= i < tool_calls@.len() ==> #[trigger] r@[i + 1]@ == record_line(
                tool_calls@[i].0@,
                tool_calls@[i].1@,
            ),
{
    let mut r: Vec<String> = Vec::new();
    r.push(owned("--- Task tool usage summary"));
    let mut i: usize = 0;
    while i < tool_calls.len()
        invariant
            i <= tool_calls@.len(),
            r@.len() == i + 1,
            r@[0]@ == "--- Task tool usage summary"@,
            forall|j: int|
                0 <= j < i ==> #[trigger] r@[j + 1]@ == record_line(
                    tool_calls@[j].0@,
                    tool_calls@[j].1@,
                ),
        decreases tool_calls@.len() - i,
    {
        r.push(summary_line(tool_calls[i].0.as_str(), tool_calls[i].1.as_str()));
        i = i + 1;
    }
    r
}

/// The tools whose result the interactive screen shows in full.
pub open spec fn shown_in_full(tool: Seq<char>) -> bool {
    tool == "describe_to_user"@ || tool == "finish_task"@ || tool == "finish_planning"@
}

pub fn shows_result(tool: &str) -> (r: bool)
    ensures
        r == shown_in_full(tool@),
{
    crate::text::str_eq(tool, "describe_to_user") || crate::text::str_eq(tool, "finish_task")
        || crate::text::str_eq(tool, "finish_planning")
}

/// Output on a plain terminal: each call, and with details on, results and
/// failures as well.
pub struct StdoutOutput {
    pub tool_call_details: bool,
}

impl StdoutOutput {
    pub fn tool_call_lines(&self, tool: &str, primary_value: &str) -> (r: Vec<String>)
        ensures
            r@.len() == 1,
            r@[0]@ == call_line(tool@, primary_value@),
    {
        vec![tool_call_line(tool, primary_value)]
    }

    /// With details on, the result under its call, cut to 500 characters.
    pub fn result_lines(&self, tool: &str, primary_value: &str, result: &str) -> (r: Vec<String>)
        ensures
            !self.tool_call_details ==> r@.len() == 0,
            self.tool_call_details ==> r@.len() == 1 && r@[0]@ == "Tool call result: "@
                + prefix_of(record_line(tool@, primary_value@) + "\n"@ + result@, 500),
    {
        if self.tool_call_details {
            let mut full = summary_line(tool, primary_value);
            push_str(&mut full, "\n");
            push_str(&mut full, result);
            let cut = first_chars(full.as_str(), 500);
            vec![concat2("Tool call result: ", cut.as_str())]
        } else {
            Vec::new()
        }
    }

    pub fn failure_lines(&self, tool: &str, primary_value: &str, args_str: &str, error: &str) -> (r: Vec<String>)
        ensures
            r@.len() == if self.tool_call_details {
                3int
            } else {
                1int
            },
            r@[0]@ == call_line(tool@, primary_value@),
            self.tool_call_details ==> r@[1]@ == "Tool call failed: [FAILURE "@ + tool@ + " "@
                + args_str@ + "]"@ && r@[2]@ == "Error: "@ + error@,
    {
        let mut r = vec![tool_call_line(tool, primary_value)];
        if self.tool_call_details {
            let mut f = concat2("Tool call failed: [FAILURE ", tool);
            push_str(&mut f, " ");
            push_str(&mut f, args_str);
            push_str(&mut f, "]");
            r.push(f);
            r.push(concat2("Error: ", error));
        }
        r
    }
}

} // verus!
