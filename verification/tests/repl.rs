use ursix::repl::{parse_input, Command};

#[test]
fn test_parse_exit() {
    assert!(matches!(parse_input("/exit"), Command::Exit));
    assert!(matches!(parse_input("/quit"), Command::Exit));
    assert!(matches!(parse_input("/q"), Command::Exit));
    assert!(matches!(parse_input("  /exit  "), Command::Exit));
}

#[test]
fn test_parse_clear() {
    assert!(matches!(parse_input("/clear"), Command::Clear));
}

#[test]
fn test_parse_help() {
    assert!(matches!(parse_input("/help"), Command::Help));
    assert!(matches!(parse_input("/h"), Command::Help));
    assert!(matches!(parse_input("/?"), Command::Help));
}

#[test]
fn test_parse_model() {
    match parse_input("/model qwen2.5-coder") {
        Command::Model(name) => assert_eq!(name, "qwen2.5-coder"),
        _ => panic!("expected Model command"),
    }

    match parse_input("/m llama3.2") {
        Command::Model(name) => assert_eq!(name, "llama3.2"),
        _ => panic!("expected Model command"),
    }
}

#[test]
fn test_parse_model_missing_arg() {
    assert!(matches!(parse_input("/model"), Command::Unknown(_)));
    assert!(matches!(parse_input("/model   "), Command::Unknown(_)));
}

#[test]
fn test_parse_unknown_command() {
    match parse_input("/foo") {
        Command::Unknown(cmd) => assert_eq!(cmd, "/foo"),
        _ => panic!("expected Unknown command"),
    }
}

#[test]
fn test_parse_regular_prompt() {
    match parse_input("explain this code") {
        Command::Prompt(text) => assert_eq!(text, "explain this code"),
        _ => panic!("expected Prompt command"),
    }
}

#[test]
fn test_parse_empty() {
    assert!(matches!(parse_input(""), Command::Empty));
    assert!(matches!(parse_input("   "), Command::Empty));
}

#[test]
fn repl_commands_ignore_case_and_keep_argument_case() {
    assert!(matches!(parse_input("/EXIT"), Command::Exit));
    match parse_input("/Model  Llama3.2  ") {
        Command::Model(name) => assert_eq!(name, "Llama3.2"),
        _ => panic!("expected Model command"),
    }
    match parse_input("/model") {
        Command::Unknown(m) => assert_eq!(m, "/model (missing model name)"),
        _ => panic!("expected Unknown command"),
    }
    match parse_input("/FOO bar") {
        Command::Unknown(m) => assert_eq!(m, "/foo"),
        _ => panic!("expected Unknown command"),
    }
}
