use attotool::args::{arg_string, compute_args_str, primary_value};
use attotool::controller::handle_finish_condition;
use attotool::normalize::Scalar;
use attotool::tools::{approval_from_answer, find_active_tool, get_tools, shell_output_text, Tool};

#[test]
fn tools_by_mode() {
    assert_eq!(get_tools(false, false).len(), 6);
    assert!(get_tools(false, false).contains(&Tool::FinishTask));
    let plan = get_tools(false, true);
    assert_eq!(plan, vec![Tool::ReadFile, Tool::FinishPlanning, Tool::AskForClarification, Tool::DescribeToUser]);
    assert!(get_tools(true, true).contains(&Tool::WriteFile));
}

#[test]
fn names_and_lookup() {
    assert_eq!(Tool::ExecuteShellCommand.name(), "execute_shell_command");
    assert_eq!(find_active_tool("read_file", false, false), Some(Tool::ReadFile));
    assert_eq!(find_active_tool("finish_planning", false, false), None);
    assert_eq!(find_active_tool("nope", false, false), None);
}

#[test]
fn format_lists_parameters() {
    assert_eq!(Tool::ReadFile.format(), "read_file: 'Reads a file on the local filesystem'\n  path: string");
    assert_eq!(
        Tool::WriteFile.format(),
        "write_file: 'Writes a file on the local filesystem'\n  path: string\n  content: string"
    );
    assert_eq!(Tool::ExecuteShellCommand.parameters()[1], ("args".to_string(), "string".to_string()));
}

#[test]
fn finish_condition_cases() {
    assert!(handle_finish_condition("finish_task", 0, 0, false));
    assert!(handle_finish_condition("finish_planning", 0, 0, true));
    assert!(!handle_finish_condition("read_file", 100, 0, false));
    assert!(!handle_finish_condition("read_file", 2, 3, false));
    assert!(handle_finish_condition("read_file", 3, 3, false));
}

#[test]
fn primary_arguments_and_args_line() {
    let args = vec![
        ("command".to_string(), Scalar::Text("ls".to_string())),
        ("args".to_string(), Scalar::Number("7".to_string())),
        ("x".to_string(), Scalar::Bool(false)),
        ("y".to_string(), Scalar::Null),
    ];
    assert_eq!(primary_value("execute_shell_command", &args), "ls");
    assert_eq!(primary_value("describe_to_user", &args), "");
    assert_eq!(arg_string(&args, "args"), "");
    assert_eq!(compute_args_str(&args), "command: 'ls' args: 7 x: false y: null");
    assert_eq!(compute_args_str(&Vec::new()), "");
}

#[test]
fn shell_output_and_approval_answers() {
    assert_eq!(shell_output_text("out", ""), "out");
    assert_eq!(shell_output_text("out", "err"), "out\nStderr: err");
    assert!(approval_from_answer("\n"));
    assert!(approval_from_answer(" Y \n"));
    assert!(!approval_from_answer("n"));
    assert!(!approval_from_answer("yes"));
}
