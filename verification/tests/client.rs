use outwiker::client::{
    call_failure_ends_session, cli_params, command_from_parts, command_line_params, parse_args,
    parse_command, repl_params, IdGenerator, ReplCommand,
};
use outwiker::json::JsonValue;

#[test]
fn ids_start_at_one_and_increase() {
    let mut g = IdGenerator::new();
    assert_eq!(g.next_id(), 1);
    assert_eq!(g.next_id(), 2);
    assert_eq!(g.next_id(), 3);
}

#[test]
fn ids_distinct_over_many_calls() {
    let mut g = IdGenerator::new();
    let ids: Vec<u64> = (0..1000).map(|_| g.next_id()).collect();
    for (i, id) in ids.iter().enumerate() {
        assert_eq!(*id, i as u64 + 1);
    }
}

#[test]
fn parse_quit_and_exit_any_case() {
    assert_eq!(parse_command("quit"), ReplCommand::Quit);
    assert_eq!(parse_command("  EXIT  "), ReplCommand::Quit);
    assert_eq!(parse_command("Quit now"), ReplCommand::Quit);
}

#[test]
fn parse_blank_lines() {
    assert_eq!(parse_command(""), ReplCommand::Empty);
    assert_eq!(parse_command("   \t\n"), ReplCommand::Empty);
    assert_eq!(parse_command("\u{3000}\u{a0}"), ReplCommand::Empty);
}

#[test]
fn parse_ping_and_help() {
    assert_eq!(parse_command("PING"), ReplCommand::Ping);
    assert_eq!(parse_command("help"), ReplCommand::Help);
    assert_eq!(parse_command("?"), ReplCommand::Help);
}

#[test]
fn parse_echo_keeps_trimmed_rest() {
    assert_eq!(parse_command("echo [1, 2]  "), ReplCommand::Echo("[1, 2]".to_string()));
    assert_eq!(parse_command("echo"), ReplCommand::Echo(String::new()));
    assert_eq!(parse_command("echo\t  hello world"), ReplCommand::Echo("hello world".to_string()));
}

#[test]
fn parse_call_splits_method_and_args() {
    assert_eq!(
        parse_command("call sum [1,2]"),
        ReplCommand::Call("sum".to_string(), "[1,2]".to_string())
    );
    assert_eq!(parse_command("call sum"), ReplCommand::Call("sum".to_string(), String::new()));
    assert_eq!(
        parse_command("call m   x"),
        ReplCommand::Call("m".to_string(), "  x".to_string())
    );
    assert_eq!(parse_command("call"), ReplCommand::CallUsage);
    assert_eq!(parse_command("CALL   "), ReplCommand::CallUsage);
}

#[test]
fn parse_unknown_reports_lowercased_word() {
    assert_eq!(parse_command("Frob x"), ReplCommand::Unknown("frob".to_string()));
}

#[test]
fn command_from_parts_directly() {
    assert_eq!(command_from_parts("exit", ""), ReplCommand::Quit);
    assert_eq!(command_from_parts("echo", "1"), ReplCommand::Echo("1".to_string()));
    assert_eq!(command_from_parts("Ping", ""), ReplCommand::Unknown("Ping".to_string()));
}

#[test]
fn repl_params_cases() {
    assert_eq!(repl_params("", None), vec![]);
    assert_eq!(repl_params("", Some(JsonValue::Null)), vec![]);
    assert_eq!(
        repl_params("[1,true]", Some(JsonValue::Array(vec![JsonValue::Number(1.into()), JsonValue::Bool(true)]))),
        vec![JsonValue::Number(1.into()), JsonValue::Bool(true)]
    );
    assert_eq!(repl_params("true", Some(JsonValue::Bool(true))), vec![JsonValue::Bool(true)]);
    assert_eq!(repl_params("hello", None), vec![JsonValue::String("hello".to_string())]);
}

#[test]
fn cli_params_cases() {
    assert_eq!(cli_params("", None), vec![]);
    assert_eq!(cli_params("hello", None), vec![]);
    assert_eq!(cli_params("null", Some(JsonValue::Null)), vec![JsonValue::Null]);
    assert_eq!(cli_params("[]", Some(JsonValue::Array(vec![]))), vec![]);
}

#[test]
fn parse_args_cases() {
    assert_eq!(parse_args(""), vec![]);
    assert_eq!(
        parse_args("[1, \"a\"]"),
        vec![JsonValue::Number(1.into()), JsonValue::String("a".to_string())]
    );
    assert_eq!(parse_args("null"), vec![JsonValue::Null]);
    assert_eq!(parse_args("{\"b\": [true], \"a\": {}}"), vec![JsonValue::Object(vec![
        ("a".to_string(), JsonValue::Object(vec![])),
        ("b".to_string(), JsonValue::Array(vec![JsonValue::Bool(true)])),
    ])]);
    assert_eq!(parse_args("not json"), vec![JsonValue::String("not json".to_string())]);
    assert_eq!(parse_args("  [1]"), vec![JsonValue::Number(1.into())]);
}

#[test]
fn command_line_params_cases() {
    assert_eq!(command_line_params(""), (vec![], false));
    assert_eq!(command_line_params("   "), (vec![], false));
    assert_eq!(command_line_params(" [1, 2] "), (vec![JsonValue::Number(1.into()), JsonValue::Number(2.into())], false));
    assert_eq!(command_line_params("\"x\""), (vec![JsonValue::String("x".to_string())], false));
    assert_eq!(command_line_params("oops"), (vec![], true));
}

#[test]
fn only_ping_failure_ends_session() {
    assert!(call_failure_ends_session(&ReplCommand::Ping));
    assert!(!call_failure_ends_session(&ReplCommand::Echo("1".to_string())));
    assert!(!call_failure_ends_session(&ReplCommand::Call("m".to_string(), String::new())));
    assert!(!call_failure_ends_session(&ReplCommand::Help));
}
