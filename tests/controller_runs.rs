use attotool::controller::{Controller, Effect, LoopConfig, LoopOutcome, Phase, PromptType, Step};
use attotool::normalize::ToolResponseFormat;
use attotool::transcript::{opening, Message, Role};

fn config(max_tool_calls: u32, yolo: bool) -> LoopConfig {
    LoopConfig { retries: 3, max_tool_calls, yolo, plan_mode: false, format: ToolResponseFormat::Yaml }
}

fn controller(cfg: LoopConfig) -> Controller {
    Controller::new(cfg, opening(Vec::new(), false, None, "do the thing".to_string()))
}

fn contents(c: &Controller) -> Vec<(Role, String)> {
    c.transcript.iter().map(|m| (m.role, m.content.clone())).collect()
}

#[test]
fn budget_of_three_completes_after_three_calls() {
    let mut c = controller(config(3, false));
    assert!(matches!(c.first_step(), Step::CallModel));
    for i in 0..3u64 {
        let step = c.on_model_reply("describe_to_user:\n  description: working");
        assert_eq!(c.dispatched, i + 1);
        if i < 2 {
            assert!(matches!(step, Step::CallModel));
            assert_eq!(c.phase, Phase::AwaitingModel);
        } else {
            assert!(matches!(step, Step::Finished(LoopOutcome::Completed)));
            assert_eq!(c.phase, Phase::Completed);
        }
    }
    assert_eq!(c.tool_calls.len(), 3);
}

#[test]
fn finish_tool_completes_the_run() {
    let mut c = controller(config(0, false));
    let step = c.on_model_reply("finish_task:\n  message: all done");
    assert!(matches!(step, Step::Finished(LoopOutcome::Completed)));
    assert_eq!(c.transcript.last().unwrap().content, "[finish_task ]\nTask completed: all done");
    assert_eq!(c.tool_calls, vec![("finish_task".to_string(), "".to_string())]);
}

#[test]
fn denied_write_is_cancelled_and_counted() {
    let mut c = controller(config(0, false));
    let step = c.on_model_reply("write_file:\n  path: a.txt\n  content: hi");
    match step {
        Step::Finished(LoopOutcome::Suspended(PromptType::Approval(p))) => {
            assert_eq!(p, "Do you want to write to file: a.txt? (Y/n): ")
        }
        _ => panic!("expected an approval prompt"),
    }
    assert_eq!(c.dispatched, 0);
    let step = c.on_approval(false);
    assert!(matches!(step, Step::CallModel));
    assert_eq!(c.dispatched, 1);
    assert_eq!(c.transcript.last().unwrap().content, "[write_file a.txt]\nFile write cancelled.");
}

#[test]
fn approved_shell_command_is_performed() {
    let mut c = controller(config(0, false));
    let step = c.on_model_reply("execute_shell_command:\n  command: ls\n  args: -la");
    match step {
        Step::Finished(LoopOutcome::Suspended(PromptType::Approval(p))) => {
            assert_eq!(p, "Do you want to run this command: `ls -la` ? (Y/n): ")
        }
        _ => panic!("expected an approval prompt"),
    }
    match c.on_approval(true) {
        Step::Perform(Effect::RunShell { command_line }) => assert_eq!(command_line, "ls -la"),
        _ => panic!("expected the command to run"),
    }
    let step = c.on_effect(Ok("file.txt\n".to_string()));
    assert!(matches!(step, Step::CallModel));
    assert_eq!(c.transcript.last().unwrap().content, "[execute_shell_command ls]\nfile.txt\n");
}

#[test]
fn yolo_runs_mutating_tools_without_asking() {
    let mut c = controller(config(0, true));
    match c.on_model_reply("write_file:\n  path: a.txt\n  content: hi") {
        Step::Perform(Effect::WriteFile { path, content }) => {
            assert_eq!(path, "a.txt");
            assert_eq!(content, "hi");
        }
        _ => panic!("expected a write"),
    }
}

#[test]
fn clarification_round_keeps_order() {
    let mut c = controller(config(0, false));
    let reply = "ask_for_clarification:\n  question: Which colour?";
    match c.on_model_reply(reply) {
        Step::Finished(LoopOutcome::Suspended(PromptType::Clarification(q))) => assert_eq!(q, "Which colour?"),
        _ => panic!("expected a clarification"),
    }
    assert_eq!(c.phase, Phase::AwaitingClarification);
    let step = c.on_clarification("blue");
    assert!(matches!(step, Step::CallModel));
    c.on_model_reply("finish_task:\n  message: blue it is");
    assert_eq!(
        contents(&c),
        vec![
            (Role::User, "do the thing".to_string()),
            (Role::Assistant, reply.to_string()),
            (Role::User, "blue".to_string()),
            (Role::Assistant, "finish_task:\n  message: blue it is".to_string()),
            (Role::User, "[finish_task ]\nTask completed: blue it is".to_string()),
        ]
    );
}

#[test]
fn unknown_tool_is_a_failure_marker() {
    let mut c = controller(config(0, false));
    let step = c.on_model_reply("launch_rocket:\n  target: moon\n  count: 3");
    assert!(matches!(step, Step::CallModel));
    assert_eq!(c.transcript.last().unwrap().content, "[FAILURE launch_rocket target: 'moon' count: 3]");
    assert_eq!(c.dispatched, 1);
    let r = c.last.clone().unwrap();
    assert!(r.failed);
    assert_eq!(r.error, "Unknown tool: launch_rocket");
}

#[test]
fn effect_error_is_a_failure_marker() {
    let mut c = controller(config(0, false));
    assert!(matches!(c.on_model_reply("read_file:\n  path: a.txt"), Step::Perform(Effect::ReadFile { .. })));
    let step = c.on_effect(Err("disk gone".to_string()));
    assert!(matches!(step, Step::CallModel));
    assert_eq!(c.transcript.last().unwrap().content, "[FAILURE read_file path: 'a.txt']");
}

#[test]
fn empty_replies_fail_after_retries() {
    let mut c = controller(config(0, false));
    assert!(matches!(c.on_model_reply(""), Step::CallModel));
    assert!(matches!(c.on_model_reply("  "), Step::CallModel));
    match c.on_model_reply("\n") {
        Step::Finished(LoopOutcome::Failed(e)) => assert_eq!(e, "Failed to get non-empty tool choice after retries"),
        _ => panic!("expected failure"),
    }
    assert_eq!(c.transcript.len(), 1);
}

#[test]
fn no_retries_fails_at_once() {
    let c = Controller::new(
        LoopConfig { retries: 0, max_tool_calls: 0, yolo: false, plan_mode: false, format: ToolResponseFormat::Yaml },
        opening(Vec::new(), false, None, "x".to_string()),
    );
    assert!(matches!(c.first_step(), Step::Finished(LoopOutcome::Failed(_))));
}

#[test]
fn plan_mode_withholds_write_without_yolo() {
    let mut c = Controller::new(
        LoopConfig { retries: 3, max_tool_calls: 0, yolo: false, plan_mode: true, format: ToolResponseFormat::Yaml },
        opening(Vec::new(), false, None, "plan".to_string()),
    );
    c.on_model_reply("write_file:\n  path: a.txt\n  content: x");
    assert_eq!(c.transcript.last().unwrap().content, "[FAILURE write_file path: 'a.txt' content: 'x']");
}

#[test]
fn opening_adds_preamble_then_request() {
    let t = opening(Vec::new(), false, Some("be nice".to_string()), "go".to_string());
    let v: Vec<(Role, String)> = t.iter().map(|m| (m.role, m.content.clone())).collect();
    assert_eq!(
        v,
        vec![(Role::User, "[read_file path: 'AGENTS.md']\nbe nice".to_string()), (Role::User, "go".to_string())]
    );
    let stored = vec![Message { role: Role::Assistant, content: "earlier".to_string() }];
    let t = opening(stored, true, Some("ignored".to_string()), "more".to_string());
    assert_eq!(t.len(), 2);
    assert_eq!(t[1].content, "more");
}

#[test]
fn failed_calls_count_towards_the_budget() {
    let mut c = controller(config(3, false));
    assert!(matches!(c.on_model_reply("launch_rocket:\n  target: moon"), Step::CallModel));
    assert!(matches!(c.on_model_reply("read_file:\n  path: a.txt"), Step::Perform(_)));
    assert!(matches!(c.on_effect(Err("gone".to_string())), Step::CallModel));
    let step = c.on_model_reply("launch_rocket:\n  target: mars");
    assert!(matches!(step, Step::Finished(LoopOutcome::Completed)));
    assert_eq!(c.dispatched, 3);
    assert_eq!(c.phase, Phase::Completed);
}

#[test]
fn last_call_is_reported() {
    let mut c = controller(config(0, true));
    assert!(c.last.is_none());
    c.on_model_reply("read_file:\n  path: a.txt");
    c.on_effect(Ok("data".to_string()));
    let r = c.last.clone().unwrap();
    assert!(!r.failed);
    assert_eq!((r.tool.as_str(), r.primary.as_str(), r.detail.as_str()), ("read_file", "a.txt", "data"));
    c.on_model_reply("write_file:\n  path: b.txt\n  content: x");
    c.on_effect(Err("read-only".to_string()));
    let r = c.last.clone().unwrap();
    assert!(r.failed);
    assert_eq!((r.tool.as_str(), r.primary.as_str(), r.detail.as_str()), ("write_file", "b.txt", "path: 'b.txt' content: 'x'"));
    assert_eq!(r.error, "read-only");
}
