//! Properties of the loop controller and the tool registry that hold of
//! every run, stated over the controller's transitions.

use vstd::prelude::*;
use crate::args::{arg_str, primary_key_of};
use crate::controller::{
    after_approval, after_clarification, after_effect, after_reply, cancel_text, complete_call,
    direct_result, fail_call, inc, result_text, ControllerView, PendingView, StepView,
};
use crate::normalize::{normalized, trimmed};
use crate::tools::{active_tool, active_tools, allowed, tool_named, Tool};
use crate::transcript::{MessageView, Role};
use crate::yaml::YamlTree;

verus! {

/// `b` is `a` with messages appended after it.
pub open spec fn extends(a: Seq<MessageView>, b: Seq<MessageView>) -> bool {
    a.len() <= b.len() && b.subrange(0, a.len() as int) == a
}

proof fn lemma_push_extends(a: Seq<MessageView>, m: MessageView)
    ensures
        extends(a, a.push(m)),
{
    assert(a.push(m).subrange(0, a.len() as int) =~= a);
}

proof fn lemma_extends_trans(a: Seq<MessageView>, b: Seq<MessageView>, c: Seq<MessageView>)
    requires
        extends(a, b),
        extends(b, c),
    ensures
        extends(a, c),
{
    assert(c.subrange(0, a.len() as int) =~= b.subrange(0, a.len() as int));
}

proof fn lemma_complete_extends(c: ControllerView, p: PendingView, r: Seq<char>)
    ensures
        extends(c.transcript, complete_call(c, p, r).0.transcript),
{
    lemma_push_extends(c.transcript, (Role::User, result_text(p.0.spec_name(), p.2, r)));
}

/// The transcript is append-only: every transition of the controller keeps
/// the messages it had, in their order, and only adds after them.
pub proof fn lemma_transcript_append_only(
    c: ControllerView,
    reply: Seq<char>,
    result: Result<Seq<char>, Seq<char>>,
    approved: bool,
    answer: Seq<char>,
)
    ensures
        extends(c.transcript, after_reply(c, reply).0.transcript),
        extends(c.transcript, after_effect(c, result).0.transcript),
        extends(c.transcript, after_approval(c, approved).0.transcript),
        extends(c.transcript, after_clarification(c, answer).0.transcript),
{
    let p = c.pending->Some_0;
    assert(c.transcript.subrange(0, c.transcript.len() as int) =~= c.transcript);
    lemma_complete_extends(c, p, cancel_text(p.0));
    lemma_push_extends(c.transcript, (Role::User, answer));
    match result {
        Ok(r) => lemma_complete_extends(c, p, r),
        Err(_) => lemma_push_extends(c.transcript, after_effect(c, result).0.transcript.last()),
    }
    let t = trimmed(reply);
    if t.len() > 0 {
        let inv = normalized(t, c.config.plan_mode, c.config.format);
        let c1 = ControllerView {
            transcript: c.transcript.push((Role::Assistant, reply)),
            records: c.records.push((inv.0, arg_str(inv.1, primary_key_of(inv.0)))),
            attempts: 0,
            ..c
        };
        lemma_push_extends(c.transcript, (Role::Assistant, reply));
        let call = (
            active_tool(inv.0, c.config.yolo, c.config.plan_mode)->Some_0,
            inv.1,
            arg_str(inv.1, primary_key_of(inv.0)),
        );
        lemma_complete_extends(c1, call, direct_result(call.0, inv.1));
        lemma_push_extends(c1.transcript, after_reply(c, reply).0.transcript.last());
        if after_reply(c, reply).0.transcript.len() > c1.transcript.len() {
            lemma_extends_trans(c.transcript, c1.transcript, after_reply(c, reply).0.transcript);
        }
    }
}

/// A reply with no text leaves the transcript as it was; any other reply
/// is appended as one assistant message, right after what was there. So
/// the controller never adds an empty assistant entry.
pub proof fn lemma_no_empty_assistant(c: ControllerView, reply: Seq<char>)
    ensures
        trimmed(reply).len() == 0 ==> after_reply(c, reply).0.transcript == c.transcript,
        trimmed(reply).len() > 0 ==> after_reply(c, reply).0.transcript.len() > c.transcript.len()
            && after_reply(c, reply).0.transcript[c.transcript.len() as int] == (
            Role::Assistant,
            reply,
        ),
{
    lemma_transcript_append_only(c, reply, Ok(Seq::empty()), false, Seq::empty());
    let t = trimmed(reply);
    if t.len() > 0 {
        let inv = normalized(t, c.config.plan_mode, c.config.format);
        let c1 = ControllerView {
            transcript: c.transcript.push((Role::Assistant, reply)),
            records: c.records.push((inv.0, arg_str(inv.1, primary_key_of(inv.0)))),
            attempts: 0,
            ..c
        };
        let after = after_reply(c, reply).0.transcript;
        assert(extends(c1.transcript, after)) by {
            let call = (
                active_tool(inv.0, c.config.yolo, c.config.plan_mode)->Some_0,
                inv.1,
                arg_str(inv.1, primary_key_of(inv.0)),
            );
            assert(c1.transcript.subrange(0, c1.transcript.len() as int) =~= c1.transcript);
            lemma_complete_extends(c1, call, direct_result(call.0, inv.1));
            lemma_push_extends(c1.transcript, after.last());
        }
        assert(after[c.transcript.len() as int] == after.subrange(0, c1.transcript.len() as int)[c.transcript.len() as int]);
    }
}

/// Suspending for clarification and resuming with an answer: the reply
/// that asked is appended when the run suspends, nothing while it waits,
/// and the answer itself, as a new user turn, right after it on resume;
/// each appears once, in that order.
pub proof fn lemma_clarification_round(c: ControllerView, reply: Seq<char>, answer: Seq<char>)
    requires
        trimmed(reply).len() > 0,
        active_tool(normalized(trimmed(reply), c.config.plan_mode, c.config.format).0, c.config.yolo, c.config.plan_mode)
            == Some(Tool::AskForClarification),
    ensures
        ({
            let inv = normalized(trimmed(reply), c.config.plan_mode, c.config.format);
            let (c1, s1) = after_reply(c, reply);
            let (c2, s2) = after_clarification(c1, answer);
            &&& s1 == StepView::Suspended(false, arg_str(inv.1, "question"@))
            &&& c1.phase is AwaitingClarification
            &&& c1.transcript == c.transcript.push((Role::Assistant, reply))
            &&& c1.dispatched == c.dispatched
            &&& c2.transcript == c.transcript.push((Role::Assistant, reply)).push((Role::User, answer))
            &&& c2.dispatched == inc(c.dispatched)
        }),
{
}

/// Declining an approval completes the call with a cancellation: no effect
/// is handed out, the cancellation joins the transcript as the call's
/// result, and the call counts towards the budget.
pub proof fn lemma_approval_denial(c: ControllerView)
    requires
        c.phase is AwaitingApproval,
        c.pending is Some,
    ensures
        ({
            let p = c.pending->Some_0;
            let (c1, s1) = after_approval(c, false);
            &&& !(s1 is Perform)
            &&& c1.transcript == c.transcript.push(
                (Role::User, result_text(p.0.spec_name(), p.2, cancel_text(p.0))),
            )
            &&& c1.dispatched == inc(c.dispatched)
            &&& c1.pending is None
        }),
{
}

/// With a non-zero budget and no finish tool, every dispatched call, done
/// or failed, counts once; the run waits on the model again while the count
/// is below the budget and completes at the call that reaches it. Starting
/// from no calls, the run therefore ends after exactly `max_tool_calls`
/// calls.
pub proof fn lemma_budget_ends_run(
    c: ControllerView,
    p: PendingView,
    result: Seq<char>,
    name: Seq<char>,
    primary: Seq<char>,
    args: Seq<(Seq<char>, YamlTree)>,
    error: Seq<char>,
)
    requires
        c.config.max_tool_calls != 0,
        !p.0.spec_is_finish(),
        c.dispatched < c.config.max_tool_calls,
    ensures
        complete_call(c, p, result).0.dispatched == c.dispatched + 1,
        complete_call(c, p, result).1 is Completed <==> c.dispatched + 1 == c.config.max_tool_calls,
        complete_call(c, p, result).1 is CallModel <==> c.dispatched + 1 < c.config.max_tool_calls,
        complete_call(c, p, result).0.phase is Completed <==> c.dispatched + 1
            == c.config.max_tool_calls,
        fail_call(c, name, primary, args, error).0.dispatched == c.dispatched + 1,
        fail_call(c, name, primary, args, error).1 is Completed <==> c.dispatched + 1 == c.config.max_tool_calls,
        fail_call(c, name, primary, args, error).1 is CallModel <==> c.dispatched + 1 < c.config.max_tool_calls,
{
    reveal_strlit("execute_shell_command");
    reveal_strlit("read_file");
    reveal_strlit("write_file");
    reveal_strlit("ask_for_clarification");
    reveal_strlit("describe_to_user");
    reveal_strlit("finish_task");
    reveal_strlit("finish_planning");
}

/// The run after taking the model's replies in turn, for as long as it
/// asks for the next one.
pub open spec fn after_replies(c: ControllerView, replies: Seq<Seq<char>>) -> (ControllerView, StepView)
    decreases replies.len(),
{
    if replies.len() == 0 {
        (c, StepView::CallModel)
    } else {
        let (c1, s1) = after_replies(c, replies.drop_last());
        if s1 is CallModel {
            after_reply(c1, replies.last())
        } else {
            (c1, s1)
        }
    }
}

/// A whole run under a budget: starting from no calls, with replies that
/// each pick a tool that is not a finish tool (here, describing to the
/// user), the run asks for the next reply after each of the first
/// `max_tool_calls - 1` calls and has completed right after the
/// `max_tool_calls`-th.
pub proof fn lemma_budget_run(c: ControllerView, replies: Seq<Seq<char>>)
    requires
        c.phase is AwaitingModel,
        c.dispatched == 0,
        c.config.max_tool_calls > 0,
        replies.len() <= c.config.max_tool_calls,
        forall|i: int|
            0 <= i < replies.len() ==> trimmed(#[trigger] replies[i]).len() > 0 && active_tool(
                normalized(trimmed(replies[i]), c.config.plan_mode, c.config.format).0,
                c.config.yolo,
                c.config.plan_mode,
            ) == Some(Tool::DescribeToUser),
    ensures
        after_replies(c, replies).0.dispatched == replies.len(),
        after_replies(c, replies).0.config == c.config,
        replies.len() < c.config.max_tool_calls ==> after_replies(c, replies).1 is CallModel
            && after_replies(c, replies).0.phase is AwaitingModel,
        replies.len() == c.config.max_tool_calls ==> after_replies(c, replies).1 is Completed
            && after_replies(c, replies).0.phase is Completed,
    decreases replies.len(),
{
    if replies.len() > 0 {
        let init = replies.drop_last();
        assert forall|i: int| 0 <= i < init.len() implies trimmed(#[trigger] init[i]).len() > 0
            && active_tool(
            normalized(trimmed(init[i]), c.config.plan_mode, c.config.format).0,
            c.config.yolo,
            c.config.plan_mode,
        ) == Some(Tool::DescribeToUser) by {
            assert(init[i] == replies[i]);
        }
        lemma_budget_run(c, init);
        let last = replies.last();
        assert(last == replies[replies.len() - 1]);
        reveal_strlit("describe_to_user");
        reveal_strlit("finish_task");
        reveal_strlit("finish_planning");
        assert("describe_to_user"@.len() == 16 && "finish_task"@.len() == 11 && "finish_planning"@.len() == 15);
    }
}

/// Each tool's name denotes that tool.
pub proof fn lemma_tool_named(t: Tool)
    ensures
        tool_named(t.spec_name()) == Some(t),
{
    reveal_strlit("execute_shell_command");
    reveal_strlit("read_file");
    reveal_strlit("write_file");
    reveal_strlit("ask_for_clarification");
    reveal_strlit("describe_to_user");
    reveal_strlit("finish_task");
    reveal_strlit("finish_planning");
    let esc = "execute_shell_command"@;
    let rf = "read_file"@;
    let wf = "write_file"@;
    let ft = "finish_task"@;
    let fp = "finish_planning"@;
    let ac = "ask_for_clarification"@;
    let du = "describe_to_user"@;
    assert(esc.len() == 21 && rf.len() == 9 && wf.len() == 10 && ft.len() == 11);
    assert(fp.len() == 15 && ac.len() == 21 && du.len() == 16);
    assert(rf != esc);
    assert(wf != esc && wf != rf && wf.len() == 10);
    assert(ft != esc && ft != rf && ft != wf && ft.len() == 11);
    assert(fp != esc && fp != rf && fp != wf && fp != ft && fp.len() == 15);
    assert(ac[0] == 'a' && esc[0] == 'e' && ac != esc && ac != rf && ac != wf && ac != ft && ac != fp);
    assert(du[0] == 'd' && du != esc && du != rf && du != wf && du != ft && du != fp && du != ac);
}

/// The tools offered to the model are exactly those that the controller
/// dispatches to, by their names.
pub proof fn lemma_registry_consistent(t: Tool, yolo: bool, plan_mode: bool)
    ensures
        active_tools(yolo, plan_mode).contains(t) <==> allowed(t, yolo, plan_mode),
        active_tools(yolo, plan_mode).contains(t) <==> active_tool(t.spec_name(), yolo, plan_mode)
            == Some(t),
{
    lemma_tool_named(t);
    let s = active_tools(yolo, plan_mode);
    if allowed(t, yolo, plan_mode) {
        if !plan_mode {
            assert(s[0] == Tool::ExecuteShellCommand && s[1] == Tool::ReadFile && s[2] == Tool::WriteFile
                && s[3] == Tool::FinishTask && s[4] == Tool::AskForClarification && s[5]
                == Tool::DescribeToUser);
        } else if yolo {
            assert(s[0] == Tool::ExecuteShellCommand && s[1] == Tool::ReadFile && s[2] == Tool::WriteFile
                && s[3] == Tool::FinishPlanning && s[4] == Tool::AskForClarification && s[5]
                == Tool::DescribeToUser);
        } else {
            assert(s[0] == Tool::ReadFile && s[1] == Tool::FinishPlanning && s[2]
                == Tool::AskForClarification && s[3] == Tool::DescribeToUser);
        }
        match t {
            Tool::ExecuteShellCommand => assert(s[0] == t),
            Tool::ReadFile => {
                if plan_mode && !yolo {
                    assert(s[0] == t);
                } else {
                    assert(s[1] == t);
                }
            },
            Tool::WriteFile => assert(s[2] == t),
            Tool::FinishTask => assert(s[3] == t),
            Tool::FinishPlanning => {
                if yolo {
                    assert(s[3] == t);
                } else {
                    assert(s[1] == t);
                }
            },
            Tool::AskForClarification => {
                if plan_mode && !yolo {
                    assert(s[2] == t);
                } else {
                    assert(s[4] == t);
                }
            },
            Tool::DescribeToUser => {
                if plan_mode && !yolo {
                    assert(s[3] == t);
                } else {
                    assert(s[5] == t);
                }
            },
        }
    }
}

} // verus!
