//! The loop controller: the state machine that turns model replies into tool
//! calls, suspends for approval or clarification, records every call in the
//! transcript and decides when a run is over. The caller drives it: it asks
//! the model when told to, performs the effects it is handed, and feeds back
//! what came of them.

use vstd::prelude::*;
use crate::args::{arg_str, arg_string, args_text, compute_args_str, primary_key_of, primary_value};
use crate::normalize::{args_view, normalize_response, normalized, trimmed, InvocationView, Scalar, ToolResponseFormat};
use crate::text::{concat2, owned, push_str, str_eq};
use crate::tools::{active_tool, find_active_tool, Tool};
use crate::transcript::{lemma_transcript_push, transcript_view, Message, MessageView, Role};
use crate::yaml::YamlTree;

verus! {

/// What a run is configured with.
#[derive(Clone, Copy, Debug, PartialEq, Eq, Structural)]
pub struct LoopConfig {
    /// How many empty replies in a row end the run.
    pub retries: u32,
    /// The call budget; 0 leaves it unbounded.
    pub max_tool_calls: u32,
    /// Approval is bypassed for the whole run.
    pub yolo: bool,
    pub plan_mode: bool,
    /// How the model writes its tool calls.
    pub format: ToolResponseFormat,
}

/// A request for human input that holds a run.
#[derive(Clone, Debug)]
pub enum PromptType {
    Approval(String),
    Clarification(String),
}

/// What a run that stopped came to.
#[derive(Clone, Debug)]
pub enum LoopOutcome {
    Completed,
    Suspended(PromptType),
    Failed(String),
}

/// An action on the system, for the caller to perform.
#[derive(Clone, Debug)]
pub enum Effect {
    /// Run a command line in the shell; the result is its output.
    RunShell { command_line: String },
    ReadFile { path: String },
    WriteFile { path: String, content: String },
}

/// What the caller does next.
#[derive(Clone, Debug)]
pub enum Step {
    /// Ask the model for a reply to the transcript.
    CallModel,
    /// Perform the effect and hand back its result.
    Perform(Effect),
    /// The run has stopped.
    Finished(LoopOutcome),
}

#[derive(Clone, Copy, Debug, PartialEq, Eq, Structural)]
pub enum Phase {
    AwaitingModel,
    AwaitingEffect,
    AwaitingApproval,
    AwaitingClarification,
    Completed,
    Failed,
}

/// The call under way: its tool, arguments and primary argument.
#[derive(Clone, Debug)]
pub struct PendingCall {
    pub tool: Tool,
    pub args: Vec<(String, Scalar)>,
    pub primary: String,
}

pub type PendingView = (Tool, Seq<(Seq<char>, YamlTree)>, Seq<char>);

impl PendingCall {
    pub open spec fn view(self) -> PendingView {
        (self.tool, args_view(self.args@), self.primary@)
    }
}

pub enum EffectView {
    RunShell(Seq<char>),
    ReadFile(Seq<char>),
    WriteFile(Seq<char>, Seq<char>),
}

pub enum StepView {
    CallModel,
    Perform(EffectView),
    Completed,
    Suspended(bool, Seq<char>),
    Failed(Seq<char>),
}

impl Effect {
    pub open spec fn view(self) -> EffectView {
        match self {
            Effect::RunShell { command_line } => EffectView::RunShell(command_line@),
            Effect::ReadFile { path } => EffectView::ReadFile(path@),
            Effect::WriteFile { path, content } => EffectView::WriteFile(path@, content@),
        }
    }
}

impl PromptType {
    pub open spec fn is_approval(self) -> bool {
        self is Approval
    }

    pub open spec fn text(self) -> Seq<char> {
        match self {
            PromptType::Approval(s) => s@,
            PromptType::Clarification(s) => s@,
        }
    }
}

impl Step {
    pub open spec fn view(self) -> StepView {
        match self {
            Step::CallModel => StepView::CallModel,
            Step::Perform(e) => StepView::Perform(e.view()),
            Step::Finished(LoopOutcome::Completed) => StepView::Completed,
            Step::Finished(LoopOutcome::Suspended(p)) => StepView::Suspended(p.is_approval(), p.text()),
            Step::Finished(LoopOutcome::Failed(e)) => StepView::Failed(e@),
        }
    }
}

/// The last call that finished: whether it failed, its tool, its primary
/// argument, its result (or, for a failure, its arguments on one line), and
/// for a failure the error.
#[derive(Clone, Debug)]
pub struct CallReport {
    pub failed: bool,
    pub tool: String,
    pub primary: String,
    pub detail: String,
    pub error: String,
}

pub type ReportView = (bool, Seq<char>, Seq<char>, Seq<char>, Seq<char>);

impl CallReport {
    pub open spec fn view(self) -> ReportView {
        (self.failed, self.tool@, self.primary@, self.detail@, self.error@)
    }
}

/// The controller's state as plain values.
pub struct ControllerView {
    pub config: LoopConfig,
    pub transcript: Seq<MessageView>,
    pub records: Seq<(Seq<char>, Seq<char>)>,
    pub dispatched: u64,
    pub attempts: u32,
    pub phase: Phase,
    pub pending: Option<PendingView>,
    pub last: Option<ReportView>,
}

pub open spec fn inc(n: u64) -> u64 {
    if n < u64::MAX {
        (n + 1) as u64
    } else {
        n
    }
}

/// A call ends the run: it was a finish tool, or a non-zero budget is used up.
pub open spec fn finish_condition(name: Seq<char>, count: int, max_tool_calls: u32) -> bool {
    name == "finish_task"@ || name == "finish_planning"@ || (max_tool_calls != 0 && count
        >= max_tool_calls)
}

pub open spec fn result_text(name: Seq<char>, primary: Seq<char>, result: Seq<char>) -> Seq<char> {
    "["@ + name + " "@ + primary + "]\n"@ + result
}

pub open spec fn failure_text(name: Seq<char>, args: Seq<(Seq<char>, YamlTree)>) -> Seq<char> {
    "[FAILURE "@ + name + " "@ + args_text(args) + "]"@
}

pub open spec fn approval_prompt(t: Tool, args: Seq<(Seq<char>, YamlTree)>) -> Seq<char> {
    if t is ExecuteShellCommand {
        "Do you want to run this command: `"@ + arg_str(args, "command"@) + " "@ + arg_str(
            args,
            "args"@,
        ) + "` ? (Y/n): "@
    } else {
        "Do you want to write to file: "@ + arg_str(args, "path"@) + "? (Y/n): "@
    }
}

pub open spec fn cancel_text(t: Tool) -> Seq<char> {
    if t is ExecuteShellCommand {
        "Command execution cancelled."@
    } else {
        "File write cancelled."@
    }
}

/// The tools whose result the controller computes itself.
pub open spec fn runs_directly(t: Tool) -> bool {
    t is FinishTask || t is FinishPlanning || t is DescribeToUser
}

pub open spec fn direct_result(t: Tool, args: Seq<(Seq<char>, YamlTree)>) -> Seq<char> {
    if t is DescribeToUser {
        "Description: "@ + arg_str(args, "description"@)
    } else if t is FinishPlanning {
        "Planning completed: "@ + arg_str(args, "message"@)
    } else {
        "Task completed: "@ + arg_str(args, "message"@)
    }
}

pub open spec fn effect_of(t: Tool, args: Seq<(Seq<char>, YamlTree)>) -> EffectView {
    if t is ExecuteShellCommand {
        EffectView::RunShell(arg_str(args, "command"@) + " "@ + arg_str(args, "args"@))
    } else if t is WriteFile {
        EffectView::WriteFile(arg_str(args, "path"@), arg_str(args, "content"@))
    } else {
        EffectView::ReadFile(arg_str(args, "path"@))
    }
}

pub open spec fn retries_message() -> Seq<char> {
    "Failed to get non-empty tool choice after retries"@
}

/// A call that produced `result`: `message` joins the transcript as a user
/// turn, the count goes up, and the run completes if the finish condition
/// holds.
pub open spec fn finish_call(c: ControllerView, p: PendingView, result: Seq<char>, message: Seq<char>) -> (
    ControllerView,
    StepView,
) {
    let d = inc(c.dispatched);
    let t = c.transcript.push((Role::User, message));
    let last = Some((false, p.0.spec_name(), p.2, result, Seq::empty()));
    if finish_condition(p.0.spec_name(), d as int, c.config.max_tool_calls) {
        (
            ControllerView { transcript: t, dispatched: d, phase: Phase::Completed, pending: None, last, ..c },
            StepView::Completed,
        )
    } else {
        (
            ControllerView {
                transcript: t,
                dispatched: d,
                phase: Phase::AwaitingModel,
                pending: None,
                attempts: 0,
                last,
                ..c
            },
            StepView::CallModel,
        )
    }
}

/// A call that produced `result`, recorded under its tool and primary
/// argument.
pub open spec fn complete_call(c: ControllerView, p: PendingView, result: Seq<char>) -> (
    ControllerView,
    StepView,
) {
    finish_call(c, p, result, result_text(p.0.spec_name(), p.2, result))
}

/// A non-zero budget is used up.
pub open spec fn budget_spent(count: int, max_tool_calls: u32) -> bool {
    max_tool_calls != 0 && count >= max_tool_calls
}

/// A call that failed: a failure marker joins the transcript and the count
/// goes up; the run goes on, unless that used up the budget.
pub open spec fn fail_call(
    c: ControllerView,
    name: Seq<char>,
    primary: Seq<char>,
    args: Seq<(Seq<char>, YamlTree)>,
    error: Seq<char>,
) -> (ControllerView, StepView) {
    let d = inc(c.dispatched);
    let t = c.transcript.push((Role::User, failure_text(name, args)));
    let last = Some((true, name, primary, args_text(args), error));
    if budget_spent(d as int, c.config.max_tool_calls) {
        (
            ControllerView { transcript: t, dispatched: d, phase: Phase::Completed, pending: None, last, ..c },
            StepView::Completed,
        )
    } else {
        (
            ControllerView {
                transcript: t,
                dispatched: d,
                phase: Phase::AwaitingModel,
                pending: None,
                attempts: 0,
                last,
                ..c
            },
            StepView::CallModel,
        )
    }
}

/// Dispatching an invocation to the tool it names.
pub open spec fn dispatch(c: ControllerView, inv: InvocationView) -> (ControllerView, StepView) {
    let primary = arg_str(inv.1, primary_key_of(inv.0));
    match active_tool(inv.0, c.config.yolo, c.config.plan_mode) {
        None => fail_call(c, inv.0, primary, inv.1, "Unknown tool: "@ + inv.0),
        Some(t) => {
            let p = (t, inv.1, primary);
            if t.spec_is_mutating() && !c.config.yolo {
                (
                    ControllerView { phase: Phase::AwaitingApproval, pending: Some(p), ..c },
                    StepView::Suspended(true, approval_prompt(t, inv.1)),
                )
            } else if t is AskForClarification {
                (
                    ControllerView { phase: Phase::AwaitingClarification, pending: Some(p), ..c },
                    StepView::Suspended(false, arg_str(inv.1, "question"@)),
                )
            } else if runs_directly(t) {
                complete_call(c, p, direct_result(t, inv.1))
            } else {
                (
                    ControllerView { phase: Phase::AwaitingEffect, pending: Some(p), ..c },
                    StepView::Perform(effect_of(t, inv.1)),
                )
            }
        },
    }
}

/// A model reply: an empty one is counted and retried until the retries are
/// used up; any other is recorded in the transcript and dispatched.
pub open spec fn after_reply(c: ControllerView, reply: Seq<char>) -> (ControllerView, StepView) {
    let t = trimmed(reply);
    if t.len() == 0 {
        let a = (c.attempts + 1) as u32;
        if a >= c.config.retries {
            (ControllerView { attempts: a, phase: Phase::Failed, ..c }, StepView::Failed(retries_message()))
        } else {
            (ControllerView { attempts: a, ..c }, StepView::CallModel)
        }
    } else {
        let inv = normalized(t, c.config.plan_mode, c.config.format);
        let c1 = ControllerView {
            transcript: c.transcript.push((Role::Assistant, reply)),
            records: c.records.push((inv.0, arg_str(inv.1, primary_key_of(inv.0)))),
            attempts: 0,
            ..c
        };
        dispatch(c1, inv)
    }
}

/// The result of a performed effect; an error becomes a failure marker.
pub open spec fn after_effect(c: ControllerView, result: Result<Seq<char>, Seq<char>>) -> (
    ControllerView,
    StepView,
) {
    let p = c.pending->Some_0;
    match result {
        Ok(r) => complete_call(c, p, r),
        Err(e) => fail_call(c, p.0.spec_name(), p.2, p.1, e),
    }
}

/// The answer to an approval prompt: yes performs the effect; no completes
/// the call with a cancellation, which is a result and not a failure.
pub open spec fn after_approval(c: ControllerView, approved: bool) -> (ControllerView, StepView) {
    let p = c.pending->Some_0;
    if approved {
        (ControllerView { phase: Phase::AwaitingEffect, ..c }, StepView::Perform(effect_of(p.0, p.1)))
    } else {
        complete_call(c, p, cancel_text(p.0))
    }
}

/// The answer to a clarification question: it joins the transcript as a
/// new user turn of its own, and it is the call's result.
pub open spec fn after_clarification(c: ControllerView, answer: Seq<char>) -> (ControllerView, StepView) {
    finish_call(c, c.pending->Some_0, answer, answer)
}

pub open spec fn records_view(rs: Seq<(String, String)>) -> Seq<(Seq<char>, Seq<char>)> {
    rs.map_values(|r: (String, String)| (r.0@, r.1@))
}

/// The controller of one run.
pub struct Controller {
    pub config: LoopConfig,
    pub transcript: Vec<Message>,
    /// Each selected call as (tool name, primary argument), for the summary.
    pub tool_calls: Vec<(String, String)>,
    /// The calls dispatched so far.
    pub dispatched: u64,
    /// The empty replies in a row so far.
    pub attempts: u32,
    pub phase: Phase,
    pub pending: Option<PendingCall>,
    /// The last call that finished, for the caller to show.
    pub last: Option<CallReport>,
}

pub proof fn lemma_records_push(rs: Seq<(String, String)>, r: (String, String))
    ensures
        records_view(rs.push(r)) == records_view(rs).push((r.0@, r.1@)),
{
    assert(records_view(rs.push(r)) =~= records_view(rs).push((r.0@, r.1@)));
}

/// Whether a call ends the run: a finish tool, or a non-zero budget reached.
pub fn handle_finish_condition(
    tool: &str,
    tool_calls_len: u64,
    max_tool_calls: u32,
    plan_mode: bool,
) -> (r: bool)
    ensures
        r == finish_condition(tool@, tool_calls_len as int, max_tool_calls),
{
    str_eq(tool, "finish_task") || str_eq(tool, "finish_planning") || (max_tool_calls != 0
        && tool_calls_len >= max_tool_calls as u64)
}

fn result_message(name: &str, primary: &str, result: &str) -> (r: String)
    ensures
        r@ == result_text(name@, primary@, result@),
{
    let mut r = concat2("[", name);
    push_str(&mut r, " ");
    push_str(&mut r, primary);
    push_str(&mut r, "]\n");
    push_str(&mut r, result);
    r
}

fn failure_message(name: &str, args: &Vec<(String, Scalar)>) -> (r: String)
    ensures
        r@ == failure_text(name@, args_view(args@)),
{
    let mut r = concat2("[FAILURE ", name);
    push_str(&mut r, " ");
    let a = compute_args_str(args);
    push_str(&mut r, a.as_str());
    push_str(&mut r, "]");
    r
}

fn approval_prompt_for(t: Tool, args: &Vec<(String, Scalar)>) -> (r: String)
    ensures
        r@ == approval_prompt(t, args_view(args@)),
{
    if matches!(t, Tool::ExecuteShellCommand) {
        let mut r = owned("Do you want to run this command: `");
        push_str(&mut r, arg_string(args, "command").as_str());
        push_str(&mut r, " ");
        push_str(&mut r, arg_string(args, "args").as_str());
        push_str(&mut r, "` ? (Y/n): ");
        r
    } else {
        let mut r = owned("Do you want to write to file: ");
        push_str(&mut r, arg_string(args, "path").as_str());
        push_str(&mut r, "? (Y/n): ");
        r
    }
}

fn cancel_message(t: Tool) -> (r: String)
    ensures
        r@ == cancel_text(t),
{
    if matches!(t, Tool::ExecuteShellCommand) {
        owned("Command execution cancelled.")
    } else {
        owned("File write cancelled.")
    }
}

fn direct_result_for(t: Tool, args: &Vec<(String, Scalar)>) -> (r: String)
    ensures
        r@ == direct_result(t, args_view(args@)),
{
    if matches!(t, Tool::DescribeToUser) {
        concat2("Description: ", arg_string(args, "description").as_str())
    } else if matches!(t, Tool::FinishPlanning) {
        concat2("Planning completed: ", arg_string(args, "message").as_str())
    } else {
        concat2("Task completed: ", arg_string(args, "message").as_str())
    }
}

fn effect_for(t: Tool, args: &Vec<(String, Scalar)>) -> (r: Effect)
    ensures
        r.view() == effect_of(t, args_view(args@)),
{
    if matches!(t, Tool::ExecuteShellCommand) {
        let mut line = arg_string(args, "command");
        push_str(&mut line, " ");
        push_str(&mut line, arg_string(args, "args").as_str());
        Effect::RunShell { command_line: line }
    } else if matches!(t, Tool::WriteFile) {
        Effect::WriteFile { path: arg_string(args, "path"), content: arg_string(args, "content") }
    } else {
        Effect::ReadFile { path: arg_string(args, "path") }
    }
}

impl Controller {
    pub open spec fn view(&self) -> ControllerView {
        ControllerView {
            config: self.config,
            transcript: transcript_view(self.transcript@),
            records: records_view(self.tool_calls@),
            dispatched: self.dispatched,
            attempts: self.attempts,
            phase: self.phase,
            pending: match self.pending {
                Some(p) => Some(p.view()),
                None => None,
            },
            last: match self.last {
                Some(r) => Some(r.view()),
                None => None,
            },
        }
    }

    /// A call is pending exactly while the run waits on an effect or an
    /// answer, and a run that waits on the model has retries left.
    pub open spec fn wf(&self) -> bool {
        &&& (self.phase is AwaitingEffect || self.phase is AwaitingApproval
            || self.phase is AwaitingClarification) <==> self.pending is Some
        &&& self.phase is AwaitingModel ==> self.attempts < self.config.retries
        &&& !(self.phase is Failed) ==> self.config.retries > 0
    }

    /// A run over the opening transcript; with no retries allowed it has
    /// failed before it starts.
    pub fn new(config: LoopConfig, transcript: Vec<Message>) -> (r: Controller)
        ensures
            r.wf(),
            r.view() == (ControllerView {
                config,
                transcript: transcript_view(transcript@),
                records: Seq::empty(),
                dispatched: 0,
                attempts: 0,
                phase: if config.retries == 0 {
                    Phase::Failed
                } else {
                    Phase::AwaitingModel
                },
                pending: None,
                last: None,
            }),
    {
        let r = Controller {
            config,
            transcript,
            tool_calls: Vec::new(),
            dispatched: 0,
            attempts: 0,
            phase: if config.retries == 0 {
                Phase::Failed
            } else {
                Phase::AwaitingModel
            },
            pending: None,
            last: None,
        };
        assert(records_view(r.tool_calls@) =~= Seq::empty());
        r
    }

    /// The first step of a new run.
    pub fn first_step(&self) -> (s: Step)
        ensures
            s.view() == if self.phase is Failed {
                StepView::Failed(retries_message())
            } else {
                StepView::CallModel
            },
    {
        if matches!(self.phase, Phase::Failed) {
            Step::Finished(LoopOutcome::Failed(owned("Failed to get non-empty tool choice after retries")))
        } else {
            Step::CallModel
        }
    }

    fn complete(&mut self, p: PendingCall, result: &str) -> (s: Step)
        requires
            old(self).config.retries > 0,
        ensures
            (final(self).view(), s.view()) == complete_call(old(self).view(), p.view(), result@),
            final(self).wf(),
    {
        let msg = result_message(p.tool.name(), p.primary.as_str(), result);
        self.finish(p, result, msg)
    }

    fn finish(&mut self, p: PendingCall, result: &str, msg: String) -> (s: Step)
        requires
            old(self).config.retries > 0,
        ensures
            (final(self).view(), s.view()) == finish_call(old(self).view(), p.view(), result@, msg@),
            final(self).wf(),
    {
        let ghost before = self.transcript@;
        let m = Message::new(Role::User, msg);
        self.transcript.push(m);
        proof {
            lemma_transcript_push(before, m);
        }
        self.dispatched = if self.dispatched < u64::MAX {
            self.dispatched + 1
        } else {
            self.dispatched
        };
        self.pending = None;
        self.last = Some(
            CallReport {
                failed: false,
                tool: owned(p.tool.name()),
                primary: p.primary,
                detail: owned(result),
                error: String::new(),
            },
        );
        if handle_finish_condition(p.tool.name(), self.dispatched, self.config.max_tool_calls, self.config.plan_mode) {
            self.phase = Phase::Completed;
            Step::Finished(LoopOutcome::Completed)
        } else {
            self.phase = Phase::AwaitingModel;
            self.attempts = 0;
            Step::CallModel
        }
    }

    fn fail(&mut self, name: &str, primary: String, args: &Vec<(String, Scalar)>, error: String) -> (s: Step)
        requires
            old(self).config.retries > 0,
        ensures
            (final(self).view(), s.view()) == fail_call(
                old(self).view(),
                name@,
                primary@,
                args_view(args@),
                error@,
            ),
            final(self).wf(),
    {
        let msg = failure_message(name, args);
        self.last = Some(
            CallReport { failed: true, tool: owned(name), primary, detail: compute_args_str(args), error },
        );
        let ghost before = self.transcript@;
        let m = Message::new(Role::User, msg);
        self.transcript.push(m);
        proof {
            lemma_transcript_push(before, m);
        }
        self.dispatched = if self.dispatched < u64::MAX {
            self.dispatched + 1
        } else {
            self.dispatched
        };
        self.pending = None;
        if self.config.max_tool_calls != 0 && self.dispatched >= self.config.max_tool_calls as u64 {
            self.phase = Phase::Completed;
            Step::Finished(LoopOutcome::Completed)
        } else {
            self.phase = Phase::AwaitingModel;
            self.attempts = 0;
            Step::CallModel
        }
    }

    fn dispatch_call(&mut self, name: String, args: Vec<(String, Scalar)>) -> (s: Step)
        requires
            old(self).config.retries > 0,
            old(self).pending is None,
            old(self).phase is AwaitingModel,
        ensures
            (final(self).view(), s.view()) == dispatch(old(self).view(), (name@, args_view(args@))),
            final(self).wf(),
    {
        let primary = primary_value(name.as_str(), &args);
        match find_active_tool(name.as_str(), self.config.yolo, self.config.plan_mode) {
            None => {
                let error = concat2("Unknown tool: ", name.as_str());
                self.fail(name.as_str(), primary, &args, error)
            },
            Some(t) => {
                if t.is_mutating() && !self.config.yolo {
                    let prompt = approval_prompt_for(t, &args);
                    self.pending = Some(PendingCall { tool: t, args, primary });
                    self.phase = Phase::AwaitingApproval;
                    Step::Finished(LoopOutcome::Suspended(PromptType::Approval(prompt)))
                } else if matches!(t, Tool::AskForClarification) {
                    let question = arg_string(&args, "question");
                    self.pending = Some(PendingCall { tool: t, args, primary });
                    self.phase = Phase::AwaitingClarification;
                    Step::Finished(LoopOutcome::Suspended(PromptType::Clarification(question)))
                } else if matches!(t, Tool::FinishTask | Tool::FinishPlanning | Tool::DescribeToUser) {
                    let result = direct_result_for(t, &args);
                    self.complete(PendingCall { tool: t, args, primary }, result.as_str())
                } else {
                    let effect = effect_for(t, &args);
                    self.pending = Some(PendingCall { tool: t, args, primary });
                    self.phase = Phase::AwaitingEffect;
                    Step::Perform(effect)
                }
            },
        }
    }

    /// Takes the model's reply.
    pub fn on_model_reply(&mut self, reply: &str) -> (s: Step)
        requires
            old(self).wf(),
            old(self).phase is AwaitingModel,
        ensures
            (final(self).view(), s.view()) == after_reply(old(self).view(), reply@),
            final(self).wf(),
    {
        match normalize_response(reply, self.config.plan_mode, self.config.format) {
            None => {
                self.attempts = self.attempts + 1;
                if self.attempts >= self.config.retries {
                    self.phase = Phase::Failed;
                    Step::Finished(LoopOutcome::Failed(owned("Failed to get non-empty tool choice after retries")))
                } else {
                    Step::CallModel
                }
            },
            Some(inv) => {
                let ghost before = self.transcript@;
                let m = Message::new(Role::Assistant, owned(reply));
                self.transcript.push(m);
                proof {
                    lemma_transcript_push(before, m);
                }
                let primary = primary_value(inv.name.as_str(), &inv.args);
                let ghost rs = self.tool_calls@;
                let rec = (owned(inv.name.as_str()), primary);
                self.tool_calls.push(rec);
                proof {
                    lemma_records_push(rs, rec);
                }
                self.attempts = 0;
                self.dispatch_call(inv.name, inv.args)
            },
        }
    }

    /// Takes the result of the effect it handed out; an error is recorded
    /// as a failure and the run goes on.
    pub fn on_effect(&mut self, result: Result<String, String>) -> (s: Step)
        requires
            old(self).wf(),
            old(self).phase is AwaitingEffect,
        ensures
            (final(self).view(), s.view()) == after_effect(
                old(self).view(),
                match result {
                    Ok(r) => Ok(r@),
                    Err(e) => Err(e@),
                },
            ),
            final(self).wf(),
    {
        let p = self.pending.take().unwrap();
        match result {
            Ok(r) => self.complete(p, r.as_str()),
            Err(e) => self.fail(p.tool.name(), p.primary, &p.args, e),
        }
    }

    /// Takes the answer to an approval prompt.
    pub fn on_approval(&mut self, approved: bool) -> (s: Step)
        requires
            old(self).wf(),
            old(self).phase is AwaitingApproval,
        ensures
            (final(self).view(), s.view()) == after_approval(old(self).view(), approved),
            final(self).wf(),
    {
        let p = self.pending.take().unwrap();
        if approved {
            let effect = effect_for(p.tool, &p.args);
            self.pending = Some(p);
            self.phase = Phase::AwaitingEffect;
            Step::Perform(effect)
        } else {
            let msg = cancel_message(p.tool);
            self.complete(p, msg.as_str())
        }
    }

    /// Takes the answer to a clarification question.
    pub fn on_clarification(&mut self, answer: &str) -> (s: Step)
        requires
            old(self).wf(),
            old(self).phase is AwaitingClarification,
        ensures
            (final(self).view(), s.view()) == after_clarification(old(self).view(), answer@),
            final(self).wf(),
    {
        let p = self.pending.take().unwrap();
        self.finish(p, answer, owned(answer))
    }
}

} // verus!
