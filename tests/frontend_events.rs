use attotool::controller::{LoopOutcome, PromptType};
use attotool::frontend::{App, Command, Key};

fn app() -> App {
    App::new("m".to_string(), 3, 100, 0, "u".to_string(), false, false, false, false, false, false, true)
}

fn type_text(a: &mut App, s: &str) {
    for c in s.chars() {
        a.on_key(Key::Char(c));
    }
}

#[test]
fn enter_starts_a_run_and_shows_the_request() {
    let mut a = app();
    type_text(&mut a, "list files");
    match a.on_key(Key::Enter) {
        Command::StartRun(s) => assert_eq!(s, "list files"),
        _ => panic!("expected a run"),
    }
    assert!(a.processing);
    assert_eq!(a.tui.input, "");
    assert_eq!(a.tui.history, vec!["User: list files".to_string(), "Processing request...".to_string()]);
}

#[test]
fn second_run_is_refused_while_processing() {
    let mut a = app();
    type_text(&mut a, "first");
    a.on_key(Key::Enter);
    type_text(&mut a, "second");
    assert!(matches!(a.on_key(Key::Enter), Command::Nothing));
    assert_eq!(a.tui.input, "");
    assert_eq!(a.tui.history.len(), 2);
    assert!(a.processing);
}

#[test]
fn approval_suspension_resumes_with_decision() {
    let mut a = app();
    type_text(&mut a, "write it");
    a.on_key(Key::Enter);
    a.on_outcome(LoopOutcome::Suspended(PromptType::Approval("Write a.txt?".to_string())));
    assert!(!a.processing);
    assert_eq!(a.tui.history.last().unwrap(), "Approval: Write a.txt?");
    a.on_key(Key::Char('n'));
    assert_eq!(a.pending_approval, Some(false));
    match a.on_key(Key::Enter) {
        Command::ResumeApproval(b) => assert!(!b),
        _ => panic!("expected a resume"),
    }
    assert!(a.processing);
    assert!(a.pending_prompt.is_none());
}

#[test]
fn clarification_answer_resumes_the_run() {
    let mut a = app();
    type_text(&mut a, "paint");
    a.on_key(Key::Enter);
    a.on_outcome(LoopOutcome::Suspended(PromptType::Clarification("Which colour?".to_string())));
    type_text(&mut a, "blue");
    match a.on_key(Key::Enter) {
        Command::ResumeClarification(s) => assert_eq!(s, "blue"),
        _ => panic!("expected a resume"),
    }
    assert_eq!(
        a.tui.history[a.tui.history.len() - 2..].to_vec(),
        vec!["User: blue".to_string(), "Processing clarification...".to_string()]
    );
}

#[test]
fn failure_is_shown_and_input_accepted_again() {
    let mut a = app();
    type_text(&mut a, "x");
    a.on_key(Key::Enter);
    a.on_output("--- [read_file a.txt]".to_string());
    a.on_outcome(LoopOutcome::Failed("boom".to_string()));
    assert!(!a.processing);
    assert_eq!(a.tui.history.last().unwrap(), "Error: boom");
    assert_eq!(a.tui.history[2], "--- [read_file a.txt]");
}

#[test]
fn up_recalls_last_request_and_backspace_edits() {
    let mut a = app();
    type_text(&mut a, "hello");
    a.on_key(Key::Enter);
    a.on_outcome(LoopOutcome::Completed);
    a.on_key(Key::Up);
    assert_eq!(a.tui.input, "hello");
    a.on_key(Key::Backspace);
    assert_eq!(a.tui.input, "hell");
}

#[test]
fn escape_quits_even_while_processing() {
    let mut a = app();
    type_text(&mut a, "x");
    a.on_key(Key::Enter);
    a.on_key(Key::Esc);
    assert!(a.should_quit);
}

#[test]
fn scroll_stays_within_history() {
    let mut a = app();
    for _ in 0..12 {
        a.tui.scroll_down();
    }
    a.tui.clamp_scroll(20, 15);
    assert_eq!(a.tui.scroll, 5);
    a.tui.clamp_scroll(10, 15);
    assert_eq!(a.tui.scroll, 0);
    a.tui.scroll_up();
    assert_eq!(a.tui.scroll, 0);
}
