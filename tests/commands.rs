use uart_session::command::{dispatch, parse_command, tokenize, Command, ParsedCommand};

fn toks(v: &[&str]) -> Vec<String> {
    v.iter().map(|s| s.to_string()).collect()
}

#[test]
fn quoted_token_keeps_spaces() {
    assert_eq!(tokenize("c \"o pen\" q"), Ok(toks(&["c", "o pen", "q"])));
}

#[test]
fn unclosed_quote_fails() {
    assert_eq!(tokenize("x \"y"), Err("Unclosed quote".to_string()));
    assert_eq!(parse_command("x \"y"), Err("Unclosed quote".to_string()));
}

#[test]
fn escapes_inside_and_outside_quotes() {
    assert_eq!(tokenize("a\\\"b"), Ok(toks(&["a\"b"])));
    assert_eq!(tokenize("\"x\\\\ y\""), Ok(toks(&["x\\ y"])));
    assert_eq!(tokenize("a\\b"), Ok(toks(&["a\\b"])));
}

#[test]
fn splits_on_any_white_space() {
    assert_eq!(tokenize("  a\tb \n c "), Ok(toks(&["a", "b", "c"])));
}

#[test]
fn empty_quotes_give_no_token() {
    assert_eq!(tokenize("\"\" a"), Ok(toks(&["a"])));
    assert_eq!(parse_command("\"\""), Err("No command found".to_string()));
}

#[test]
fn blank_lines_are_empty_commands() {
    assert_eq!(parse_command(""), Err("Empty command".to_string()));
    assert_eq!(parse_command(" \t "), Err("Empty command".to_string()));
}

#[test]
fn known_commands() {
    assert_eq!(parse_command("c"), Ok(Command::ModeToUartChoice));
    assert_eq!(parse_command("r"), Ok(Command::ModeToRateChoice));
    assert_eq!(parse_command("o"), Ok(Command::Open));
    assert_eq!(parse_command("  q extra \"args\" "), Ok(Command::Quit));
}

#[test]
fn names_are_case_sensitive_and_exact() {
    assert_eq!(parse_command("Q"), Err("unknown command: Q".to_string()));
    assert_eq!(parse_command("cc"), Err("unknown command: cc".to_string()));
}

#[test]
fn dispatch_reads_the_name_only() {
    let cmd = ParsedCommand { name: "o".to_string(), args: toks(&["x"]) };
    assert_eq!(dispatch(cmd), Ok(Command::Open));
    let cmd = ParsedCommand { name: "help".to_string(), args: Vec::new() };
    assert_eq!(dispatch(cmd), Err("unknown command: help".to_string()));
}
