//! The tool registry: a closed set of tools, the subset that a run may use,
//! and what each tool's name, parameters, primary argument and approval
//! policy are.

use vstd::prelude::*;
use crate::normalize::{trim, trimmed};
use crate::text::{chars_of, concat2, owned, push_str, str_eq};

verus! {

#[derive(Clone, Copy, Debug, PartialEq, Eq, Structural)]
pub enum Tool {
    ExecuteShellCommand,
    ReadFile,
    WriteFile,
    FinishTask,
    FinishPlanning,
    AskForClarification,
    DescribeToUser,
}

/// The tools that a run may use: planning mode swaps the finish tool and,
/// unless approval is bypassed, withholds the tools that change the system.
pub open spec fn active_tools(yolo: bool, plan_mode: bool) -> Seq<Tool> {
    if !plan_mode {
        seq![
            Tool::ExecuteShellCommand,
            Tool::ReadFile,
            Tool::WriteFile,
            Tool::FinishTask,
            Tool::AskForClarification,
            Tool::DescribeToUser,
        ]
    } else if yolo {
        seq![
            Tool::ExecuteShellCommand,
            Tool::ReadFile,
            Tool::WriteFile,
            Tool::FinishPlanning,
            Tool::AskForClarification,
            Tool::DescribeToUser,
        ]
    } else {
        seq![Tool::ReadFile, Tool::FinishPlanning, Tool::AskForClarification, Tool::DescribeToUser]
    }
}

/// The finish tool of a mode.
pub open spec fn finish_tool_of(plan_mode: bool) -> Tool {
    if plan_mode {
        Tool::FinishPlanning
    } else {
        Tool::FinishTask
    }
}

impl Tool {
    pub open spec fn spec_name(self) -> Seq<char> {
        match self {
            Tool::ExecuteShellCommand => "execute_shell_command"@,
            Tool::ReadFile => "read_file"@,
            Tool::WriteFile => "write_file"@,
            Tool::FinishTask => "finish_task"@,
            Tool::FinishPlanning => "finish_planning"@,
            Tool::AskForClarification => "ask_for_clarification"@,
            Tool::DescribeToUser => "describe_to_user"@,
        }
    }

    pub open spec fn spec_description(self) -> Seq<char> {
        match self {
            Tool::ExecuteShellCommand => "Executes a command with arguments on the zsh shell - includes common tools like ls, pwd, curl, cat, mkdir"@,
            Tool::ReadFile => "Reads a file on the local filesystem"@,
            Tool::WriteFile => "Writes a file on the local filesystem"@,
            Tool::FinishTask => "Marks the assigned task as completed, with a completion message"@,
            Tool::FinishPlanning => "Marks the planning as completed, with the plan as the message"@,
            Tool::AskForClarification => "Allows the assistant to ask the user for clarification on a point of interest"@,
            Tool::DescribeToUser => "Provides a description or response to the user"@,
        }
    }

    /// The parameters of the tool, each as (name, type).
    pub open spec fn spec_parameters(self) -> Seq<(Seq<char>, Seq<char>)> {
        match self {
            Tool::ExecuteShellCommand => seq![("command"@, "string"@), ("args"@, "string"@)],
            Tool::ReadFile => seq![("path"@, "string"@)],
            Tool::WriteFile => seq![("path"@, "string"@), ("content"@, "string"@)],
            Tool::FinishTask => seq![("message"@, "string"@)],
            Tool::FinishPlanning => seq![("message"@, "string"@)],
            Tool::AskForClarification => seq![("question"@, "string"@)],
            Tool::DescribeToUser => seq![("description"@, "string"@)],
        }
    }

    /// The argument that names what a call acts on, for logs and summaries;
    /// empty for the tools that have none.
    pub open spec fn spec_primary_key(self) -> Seq<char> {
        match self {
            Tool::ExecuteShellCommand => "command"@,
            Tool::ReadFile => "path"@,
            Tool::WriteFile => "path"@,
            _ => ""@,
        }
    }

    /// The tools whose action changes the system and so needs approval.
    pub open spec fn spec_is_mutating(self) -> bool {
        self is ExecuteShellCommand || self is WriteFile
    }

    pub open spec fn spec_is_finish(self) -> bool {
        self is FinishTask || self is FinishPlanning
    }

    pub fn name(&self) -> (r: &'static str)
        ensures
            r@ == self.spec_name(),
    {
        match self {
            Tool::ExecuteShellCommand => "execute_shell_command",
            Tool::ReadFile => "read_file",
            Tool::WriteFile => "write_file",
            Tool::FinishTask => "finish_task",
            Tool::FinishPlanning => "finish_planning",
            Tool::AskForClarification => "ask_for_clarification",
            Tool::DescribeToUser => "describe_to_user",
        }
    }

    pub fn description(&self) -> (r: &'static str)
        ensures
            r@ == self.spec_description(),
    {
        match self {
            Tool::ExecuteShellCommand => "Executes a command with arguments on the zsh shell - includes common tools like ls, pwd, curl, cat, mkdir",
            Tool::ReadFile => "Reads a file on the local filesystem",
            Tool::WriteFile => "Writes a file on the local filesystem",
            Tool::FinishTask => "Marks the assigned task as completed, with a completion message",
            Tool::FinishPlanning => "Marks the planning as completed, with the plan as the message",
            Tool::AskForClarification => "Allows the assistant to ask the user for clarification on a point of interest",
            Tool::DescribeToUser => "Provides a description or response to the user",
        }
    }

    pub fn parameters(&self) -> (r: Vec<(String, String)>)
        ensures
            r@.len() == self.spec_parameters().len(),
            forall|i: int|
                0 <= i < r@.len() ==> r@[i].0@ == self.spec_parameters()[i].0 && r@[i].1@
                    == self.spec_parameters()[i].1,
    {
        match self {
            Tool::ExecuteShellCommand => vec![
                (owned("command"), owned("string")),
                (owned("args"), owned("string")),
            ],
            Tool::ReadFile => vec![(owned("path"), owned("string"))],
            Tool::WriteFile => vec![
                (owned("path"), owned("string")),
                (owned("content"), owned("string")),
            ],
            Tool::FinishTask => vec![(owned("message"), owned("string"))],
            Tool::FinishPlanning => vec![(owned("message"), owned("string"))],
            Tool::AskForClarification => vec![(owned("question"), owned("string"))],
            Tool::DescribeToUser => vec![(owned("description"), owned("string"))],
        }
    }

    pub fn primary_key(&self) -> (r: &'static str)
        ensures
            r@ == self.spec_primary_key(),
    {
        match self {
            Tool::ExecuteShellCommand => "command",
            Tool::ReadFile => "path",
            Tool::WriteFile => "path",
            _ => "",
        }
    }

    pub fn is_mutating(&self) -> (r: bool)
        ensures
            r == self.spec_is_mutating(),
    {
        matches!(self, Tool::ExecuteShellCommand | Tool::WriteFile)
    }

    pub fn is_finish(&self) -> (r: bool)
        ensures
            r == self.spec_is_finish(),
    {
        matches!(self, Tool::FinishTask | Tool::FinishPlanning)
    }

    /// The tool's entry in the prompt: its name and description, then one
    /// indented line per parameter.
    pub fn format(&self) -> (r: String)
        ensures
            r@ == format_spec(*self),
    {
        let mut r = concat2(self.name(), ": '");
        push_str(&mut r, self.description());
        push_str(&mut r, "'");
        let params = self.parameters();
        let mut i: usize = 0;
        while i < params.len()
            invariant
                i <= params@.len(),
                params@.len() == self.spec_parameters().len(),
                forall|j: int|
                    0 <= j < params@.len() ==> params@[j].0@ == self.spec_parameters()[j].0
                        && params@[j].1@ == self.spec_parameters()[j].1,
                r@ == format_prefix(*self, i as int),
            decreases params@.len() - i,
        {
            push_str(&mut r, "\n  ");
            push_str(&mut r, params[i].0.as_str());
            push_str(&mut r, ": ");
            push_str(&mut r, params[i].1.as_str());
            i = i + 1;
        }
        r
    }
}

pub open spec fn param_line(p: (Seq<char>, Seq<char>)) -> Seq<char> {
    "\n  "@ + p.0 + ": "@ + p.1
}

/// The header line and the first `n` parameter lines of a tool's entry.
pub open spec fn format_prefix(t: Tool, n: int) -> Seq<char>
    decreases n,
{
    if n <= 0 {
        t.spec_name() + ": '"@ + t.spec_description() + "'"@
    } else {
        format_prefix(t, n - 1) + param_line(t.spec_parameters()[n - 1])
    }
}

pub open spec fn format_spec(t: Tool) -> Seq<char> {
    format_prefix(t, t.spec_parameters().len() as int)
}

/// The tools that a run may use, in the order they are offered to the model.
pub fn get_tools(yolo: bool, plan_mode: bool) -> (r: Vec<Tool>)
    ensures
        r@ == active_tools(yolo, plan_mode),
{
    if !plan_mode {
        vec![
            Tool::ExecuteShellCommand,
            Tool::ReadFile,
            Tool::WriteFile,
            Tool::FinishTask,
            Tool::AskForClarification,
            Tool::DescribeToUser,
        ]
    } else if yolo {
        vec![
            Tool::ExecuteShellCommand,
            Tool::ReadFile,
            Tool::WriteFile,
            Tool::FinishPlanning,
            Tool::AskForClarification,
            Tool::DescribeToUser,
        ]
    } else {
        vec![Tool::ReadFile, Tool::FinishPlanning, Tool::AskForClarification, Tool::DescribeToUser]
    }
}

pub fn finish_tool(plan_mode: bool) -> (r: Tool)
    ensures
        r == finish_tool_of(plan_mode),
{
    if plan_mode {
        Tool::FinishPlanning
    } else {
        Tool::FinishTask
    }
}

/// The tool that a name denotes, if any.
pub open spec fn tool_named(name: Seq<char>) -> Option<Tool> {
    if name == "execute_shell_command"@ {
        Some(Tool::ExecuteShellCommand)
    } else if name == "read_file"@ {
        Some(Tool::ReadFile)
    } else if name == "write_file"@ {
        Some(Tool::WriteFile)
    } else if name == "finish_task"@ {
        Some(Tool::FinishTask)
    } else if name == "finish_planning"@ {
        Some(Tool::FinishPlanning)
    } else if name == "ask_for_clarification"@ {
        Some(Tool::AskForClarification)
    } else if name == "describe_to_user"@ {
        Some(Tool::DescribeToUser)
    } else {
        None
    }
}

/// A run may use the tool: planning mode has its own finish tool and,
/// unless approval is bypassed, no tool that changes the system.
pub open spec fn allowed(t: Tool, yolo: bool, plan_mode: bool) -> bool {
    if !plan_mode {
        !(t is FinishPlanning)
    } else {
        !(t is FinishTask) && (yolo || !t.spec_is_mutating())
    }
}

/// The active tool that a name denotes, if any.
pub open spec fn active_tool(name: Seq<char>, yolo: bool, plan_mode: bool) -> Option<Tool> {
    match tool_named(name) {
        Some(t) => if allowed(t, yolo, plan_mode) {
            Some(t)
        } else {
            None
        },
        None => None,
    }
}

/// The active tool that a name denotes, if any.
pub fn find_active_tool(name: &str, yolo: bool, plan_mode: bool) -> (r: Option<Tool>)
    ensures
        r == active_tool(name@, yolo, plan_mode),
{
    let t = if str_eq(name, "execute_shell_command") {
        Tool::ExecuteShellCommand
    } else if str_eq(name, "read_file") {
        Tool::ReadFile
    } else if str_eq(name, "write_file") {
        Tool::WriteFile
    } else if str_eq(name, "finish_task") {
        Tool::FinishTask
    } else if str_eq(name, "finish_planning") {
        Tool::FinishPlanning
    } else if str_eq(name, "ask_for_clarification") {
        Tool::AskForClarification
    } else if str_eq(name, "describe_to_user") {
        Tool::DescribeToUser
    } else {
        return None;
    };
    let ok = if !plan_mode {
        !matches!(t, Tool::FinishPlanning)
    } else {
        !matches!(t, Tool::FinishTask) && (yolo || !t.is_mutating())
    };
    if ok {
        Some(t)
    } else {
        None
    }
}

/// A shell command's result: its output, then its error output if any.
pub open spec fn shell_text(stdout: Seq<char>, stderr: Seq<char>) -> Seq<char> {
    if stderr.len() == 0 {
        stdout
    } else {
        stdout + "\nStderr: "@ + stderr
    }
}

pub fn shell_output_text(stdout: &str, stderr: &str) -> (r: String)
    ensures
        r@ == shell_text(stdout@, stderr@),
{
    let mut r = owned(stdout);
    if chars_of(stderr).len() > 0 {
        push_str(&mut r, "\nStderr: ");
        push_str(&mut r, stderr);
    }
    r
}

pub fn read_error_text(error: &str) -> (r: String)
    ensures
        r@ == "Error reading file: "@ + error@,
{
    concat2("Error reading file: ", error)
}

pub fn write_ok_text() -> (r: String)
    ensures
        r@ == "File written successfully"@,
{
    owned("File written successfully")
}

pub fn write_error_text(error: &str) -> (r: String)
    ensures
        r@ == "Error writing file: "@ + error@,
{
    concat2("Error writing file: ", error)
}

/// An answer typed at an approval prompt approves when, trimmed, it is
/// empty or a `y` in either case.
pub open spec fn approves(answer: Seq<char>) -> bool {
    let t = trimmed(answer);
    t.len() == 0 || t == seq!['y'] || t == seq!['Y']
}

pub fn approval_from_answer(answer: &str) -> (r: bool)
    ensures
        r == approves(answer@),
{
    let cs = chars_of(trim(answer));
    proof {
        if cs@.len() == 1 {
            assert(cs@ == seq![cs@[0]]);
        }
    }
    cs.len() == 0 || (cs.len() == 1 && (cs[0] == 'y' || cs[0] == 'Y'))
}

} // verus!
