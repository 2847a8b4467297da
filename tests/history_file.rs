use attotool::history::transcript_from_yaml;
use attotool::transcript::{role_name, Message, Role};

/// Writes messages as the history file holds them: a list of records with
/// the role, then the content.
fn write(ms: &[Message]) -> String {
    let records: Vec<serde_yaml::Mapping> = ms
        .iter()
        .map(|m| {
            let mut r = serde_yaml::Mapping::new();
            r.insert(serde_yaml::Value::from("role"), serde_yaml::Value::from(role_name(m.role)));
            r.insert(serde_yaml::Value::from("content"), serde_yaml::Value::from(m.content.as_str()));
            r
        })
        .collect();
    serde_yaml::to_string(&records).unwrap()
}

fn pairs(ms: &[Message]) -> Vec<(Role, String)> {
    ms.iter().map(|m| (m.role, m.content.clone())).collect()
}

#[test]
fn transcript_round_trip() {
    let ms = vec![
        Message { role: Role::System, content: "rules".to_string() },
        Message { role: Role::User, content: "line one\nline two\n".to_string() },
        Message { role: Role::Assistant, content: "read_file:\n  path: 'a b.txt'".to_string() },
        Message { role: Role::User, content: "[read_file a b.txt]\n123".to_string() },
        Message { role: Role::Assistant, content: "true".to_string() },
        Message { role: Role::User, content: "".to_string() },
        Message { role: Role::User, content: "  leading: \"quoted\" # not a comment ünïcode".to_string() },
    ];
    let back = transcript_from_yaml(&write(&ms)).unwrap();
    assert_eq!(pairs(&back), pairs(&ms));
}

#[test]
fn history_rejects_malformed_records() {
    assert!(transcript_from_yaml("- role: user\n").is_none());
    assert!(transcript_from_yaml("- role: robot\n  content: hi\n").is_none());
    assert!(transcript_from_yaml("- role: user\n  content: [1]\n").is_none());
    assert!(transcript_from_yaml("role: user\ncontent: hi\n").is_none());
    assert!(transcript_from_yaml("- [").is_none());
    assert_eq!(transcript_from_yaml("[]").unwrap().len(), 0);
}

#[test]
fn history_reads_records_in_order() {
    let ms = transcript_from_yaml("- content: a\n  role: user\n- role: assistant\n  content: b\n  extra: 1\n").unwrap();
    assert_eq!(pairs(&ms), vec![(Role::User, "a".to_string()), (Role::Assistant, "b".to_string())]);
}
