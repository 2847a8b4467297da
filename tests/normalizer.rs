use attotool::normalize::{
    head_before_blank_line, normalize_response, normalize_trimmed, parse_and_normalize_yaml, parse_tool_response, parse_tool_response_yaml,
    Invocation, Scalar, ToolResponseFormat,
};

use attotool::transcript::{role_name, role_named, Role};

const Y: ToolResponseFormat = ToolResponseFormat::Yaml;

fn text(s: &str) -> Scalar {
    Scalar::Text(s.to_string())
}

fn inv(name: &str, args: Vec<(&str, Scalar)>) -> Invocation {
    Invocation { name: name.to_string(), args: args.into_iter().map(|(k, v)| (k.to_string(), v)).collect() }
}

#[test]
fn single_key_mapping_is_unchanged() {
    let r = normalize_response("execute_shell_command:\n  command: ls\n  args: -la", false, Y);
    assert_eq!(r, Some(inv("execute_shell_command", vec![("command", text("ls")), ("args", text("-la"))])));
}

#[test]
fn normalizing_twice_gives_the_same_call() {
    let once = parse_and_normalize_yaml("read_file:\n  path: notes.txt").unwrap();
    assert_eq!(once, inv("read_file", vec![("path", text("notes.txt"))]));
    let again = parse_and_normalize_yaml("read_file:\n  path: notes.txt").unwrap();
    assert_eq!(once, again);
}

#[test]
fn three_keys_keep_only_the_first() {
    let r = normalize_response(
        "read_file:\n  path: a.txt\nwrite_file:\n  path: b.txt\n  content: x\ndescribe_to_user:\n  description: hi",
        false,
        Y,
    );
    assert_eq!(r, Some(inv("read_file", vec![("path", text("a.txt"))])));
}

#[test]
fn unparseable_text_becomes_finish_task() {
    let r = normalize_response("hello there", false, Y);
    assert_eq!(r, Some(inv("finish_task", vec![("message", text("hello there"))])));
}

#[test]
fn fallback_message_is_the_trimmed_text() {
    let r = normalize_response("  hello there \n", false, Y);
    assert_eq!(r, Some(inv("finish_task", vec![("message", text("hello there"))])));
}

#[test]
fn trimmed_text_normalizes_directly() {
    assert_eq!(normalize_trimmed("hello there", false, Y), inv("finish_task", vec![("message", text("hello there"))]));
    assert_eq!(normalize_trimmed("read_file:\n  path: x", true, Y), inv("read_file", vec![("path", text("x"))]));
}

#[test]
fn fallback_in_plan_mode_is_finish_planning() {
    let r = normalize_response("hello there", true, Y);
    assert_eq!(r, Some(inv("finish_planning", vec![("message", text("hello there"))])));
}

#[test]
fn empty_response_is_retried_not_finished() {
    assert_eq!(normalize_response("", false, Y), None);
    assert_eq!(normalize_response("  \n\t ", false, Y), None);
}

#[test]
fn trailing_commentary_is_dropped() {
    let r = parse_tool_response_yaml("read_file:\n  path: a.txt\n\nI will now read the file: it matters.");
    assert_eq!(r, Some(inv("read_file", vec![("path", text("a.txt"))])));
}

#[test]
fn head_stops_at_first_blank_line() {
    assert_eq!(head_before_blank_line("a\nb\n\nc\n\nd"), "a\nb");
    assert_eq!(head_before_blank_line("no blank line"), "no blank line");
    assert_eq!(head_before_blank_line(""), "");
}

#[test]
fn scalar_arguments_keep_their_kind() {
    let r = parse_and_normalize_yaml("write_file:\n  path: out.txt\n  content: 42\n  force: true\n  note:");
    assert_eq!(
        r,
        Some(inv(
            "write_file",
            vec![
                ("path", text("out.txt")),
                ("content", Scalar::Number("42".to_string())),
                ("force", Scalar::Bool(true)),
                ("note", Scalar::Null),
            ]
        ))
    );
}

#[test]
fn tool_without_arguments_has_none() {
    assert_eq!(parse_and_normalize_yaml("finish_task:"), Some(inv("finish_task", vec![])));
}

#[test]
fn nested_arguments_are_not_a_call() {
    assert_eq!(parse_and_normalize_yaml("write_file:\n  path: [a, b]"), None);
    let r = normalize_response("write_file:\n  path: [a, b]", false, Y);
    assert_eq!(r.unwrap().name, "finish_task");
}

#[test]
fn non_mapping_document_is_not_a_call() {
    assert_eq!(parse_and_normalize_yaml("- a\n- b"), None);
    assert_eq!(parse_and_normalize_yaml("{}"), None);
    assert_eq!(parse_and_normalize_yaml("1: x"), None);
}

#[test]
fn json_with_variable_keys() {
    let r = parse_tool_response(ToolResponseFormat::JsonVariableKeys, "{\"read_file\": {\"path\": \"a.txt\"}}");
    assert_eq!(r, Some(inv("read_file", vec![("path", text("a.txt"))])));
    let r = normalize_response("{\"read_file\": {\"path\": \"a.txt\"}}\n\nthat is all", false, ToolResponseFormat::JsonVariableKeys);
    assert_eq!(r, Some(inv("read_file", vec![("path", text("a.txt"))])));
}

#[test]
fn json_with_fixed_keys() {
    let r = parse_tool_response(
        ToolResponseFormat::JsonFixedKeys,
        "{\"tool\": \"execute_shell_command\", \"tool_args\": {\"command\": \"ls\", \"args\": 2}}",
    );
    assert_eq!(
        r,
        Some(inv("execute_shell_command", vec![("command", text("ls")), ("args", Scalar::Number("2".to_string()))]))
    );
    assert_eq!(parse_tool_response(ToolResponseFormat::JsonFixedKeys, "{\"tool\": 1, \"tool_args\": {}}"), None);
    assert_eq!(normalize_response("not json", false, ToolResponseFormat::JsonFixedKeys).unwrap().name, "finish_task");
}

#[test]
fn format_names() {
    assert_eq!(ToolResponseFormat::from_str("YAML"), Ok(ToolResponseFormat::Yaml));
    assert_eq!(ToolResponseFormat::from_str("json"), Ok(ToolResponseFormat::JsonVariableKeys));
    assert_eq!(ToolResponseFormat::from_str("Json_Fixed_Key"), Ok(ToolResponseFormat::JsonFixedKeys));
    assert_eq!(
        ToolResponseFormat::from_str("xml"),
        Err("Invalid format: xml. Valid options: yaml, json, json_fixed_key".to_string())
    );
    assert_eq!(ToolResponseFormat::default(), ToolResponseFormat::Yaml);
    assert_eq!(ToolResponseFormat::from_lowercase_name("json"), Some(ToolResponseFormat::JsonVariableKeys));
    assert_eq!(ToolResponseFormat::from_lowercase_name("JSON"), None);
}

#[test]
fn role_names_round_trip() {
    for r in [Role::System, Role::User, Role::Assistant] {
        assert_eq!(role_named(role_name(r)), Some(r));
    }
    assert_eq!(role_name(Role::Assistant), "assistant");
    assert_eq!(role_named("tool"), None);
}

#[test]
fn json_keeps_the_first_key_written() {
    let r = parse_tool_response(
        ToolResponseFormat::JsonVariableKeys,
        "{\"write_file\": {\"path\": \"b\", \"content\": \"c\"}, \"describe_to_user\": {\"description\": \"d\"}}",
    );
    assert_eq!(r, Some(inv("write_file", vec![("path", text("b")), ("content", text("c"))])));
}

#[test]
fn trimming_drops_unicode_whitespace() {
    let r = normalize_response("\u{3000}\u{a0} hello there\u{2003}\t", false, Y);
    assert_eq!(r, Some(inv("finish_task", vec![("message", text("hello there"))])));
}
