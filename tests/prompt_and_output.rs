use attotool::output::{first_chars, summary_lines, StdoutOutput};
use attotool::prompt::{fill_braces, format_system_prompt_from_yaml, skip_leading_newlines, Config};

const BASE: &str = "role_and_format: R\ntask: T\ncurrent_dir: 'dir {}.'\nagents_md: ' A'\nplan_mode: ' P'\ntools: 'tools: {}'\nexamples: \"\\n\\nE\"\n";

#[test]
fn prompt_from_base_template() {
    let p = format_system_prompt_from_yaml(BASE, None, "/w", false, false, "t1").unwrap();
    assert_eq!(p, "R\n\nT\n\ndir /w.\n\ntools: t1\n\nE");
    let p = format_system_prompt_from_yaml(BASE, None, "/w", true, true, "t1").unwrap();
    assert_eq!(p, "R\n\nT\n\ndir /w. A P\n\ntools: t1\n\nE");
}

#[test]
fn user_template_overrides_fields() {
    let p = format_system_prompt_from_yaml(BASE, Some("task: U\n"), "/w", false, false, "t").unwrap();
    assert_eq!(p, "R\n\nU\n\ndir /w.\n\ntools: t\n\nE");
    assert_eq!(format_system_prompt_from_yaml("a: [", None, "/", false, false, ""), None);
}

#[test]
fn braces_and_newlines() {
    assert_eq!(fill_braces("a{}b{}", "X"), "aXbX");
    assert_eq!(fill_braces("{", "X"), "{");
    assert_eq!(skip_leading_newlines("\n\nab\n"), "ab\n");
}

#[test]
fn config_model() {
    let c = Config::from_yaml("model: gpt\nother: 1\n").unwrap();
    assert_eq!(c.model_or_default(), "gpt");
    let c = Config::from_yaml("other: 1\n").unwrap();
    assert_eq!(c.model_or_default(), "mistralai/mistral-small-3.1-24b-instruct");
    assert!(Config::from_yaml("model: [1]\n").is_none());
    assert!(Config::from_yaml("- a\n").is_none());
}

#[test]
fn output_lines() {
    let out = StdoutOutput { tool_call_details: true };
    assert_eq!(out.tool_call_lines("read_file", "a.txt"), vec!["--- [read_file a.txt]".to_string()]);
    assert_eq!(out.result_lines("read_file", "a", "xyz"), vec!["Tool call result: [read_file a]\nxyz".to_string()]);
    assert_eq!(out.failure_lines("t", "p", "k: 'v'", "bad")[1], "Tool call failed: [FAILURE t k: 'v']");
    let quiet = StdoutOutput { tool_call_details: false };
    assert!(quiet.result_lines("read_file", "a", "xyz").is_empty());
    assert_eq!(first_chars("abcdef", 3), "abc");
    let long = "x".repeat(600);
    assert_eq!(out.result_lines("t", "p", &long)[0].chars().count(), "Tool call result: ".len() + 500);
    let lines = summary_lines(&vec![("read_file".to_string(), "a".to_string())]);
    assert_eq!(lines, vec!["--- Task tool usage summary".to_string(), "[read_file a]".to_string()]);
}
