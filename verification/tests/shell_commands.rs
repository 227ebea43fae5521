use meow::options::Config;
use meow::shell::{parse_command, history_lines, split_whitespace_tokens, ShellCommand};

#[test]
fn grep_command_parses_even_for_a_missing_file() {
    // the shell records and parses the command before the open is attempted;
    // the failed open is reported by the loop and does not end it
    let cmd = parse_command("grep x missing.txt");
    match cmd {
        Some(ShellCommand::Grep(pat, file)) => {
            assert_eq!(pat, "x");
            assert_eq!(file, "missing.txt");
        },
        other => panic!("unexpected parse: {:?}", other.is_some()),
    }
    let mut transcript: Vec<String> = Vec::new();
    transcript.push("grep x missing.txt".to_string());
    let listing = history_lines(&transcript);
    assert_eq!(listing, vec!["Command history:", "  1. grep x missing.txt"]);
}

#[test]
fn command_grammar_recognizes_each_form() {
    assert!(matches!(parse_command("exit"), Some(ShellCommand::Exit)));
    assert!(matches!(parse_command("quit"), Some(ShellCommand::Exit)));
    assert!(matches!(parse_command("help"), Some(ShellCommand::Help)));
    assert!(matches!(parse_command("history"), Some(ShellCommand::History)));
    assert!(matches!(parse_command("cat notes.txt"), Some(ShellCommand::Cat(_))));
    assert!(matches!(parse_command("cat"), Some(ShellCommand::CatUsage)));
    assert!(matches!(parse_command("grep pat"), Some(ShellCommand::GrepUsage)));
    assert!(matches!(parse_command("highlight p f"), Some(ShellCommand::Highlight(_, _))));
    assert!(matches!(parse_command("highlight p"), Some(ShellCommand::HighlightUsage)));
    assert!(matches!(parse_command("rainbow f"), Some(ShellCommand::Rainbow(_))));
    assert!(matches!(parse_command("rainbow"), Some(ShellCommand::RainbowUsage)));
    assert!(matches!(parse_command("bogus arg"), Some(ShellCommand::Unknown(_))));
    assert!(parse_command("   ").is_none());
}

#[test]
fn tokens_split_on_runs_of_whitespace() {
    let toks = split_whitespace_tokens("  cat   a\tb  ");
    assert_eq!(toks, vec!["cat", "a", "b"]);
}

#[test]
fn history_numbers_from_one() {
    let h: Vec<String> = vec!["first".to_string(), "second".to_string()];
    assert_eq!(
        history_lines(&h),
        vec!["Command history:", "  1. first", "  2. second"]
    );
}

#[test]
fn derived_options_override_one_field() {
    let c = Config::new(false);
    let g = c.with_grep("pat".to_string());
    assert_eq!(g.grep_pattern.as_deref(), Some("pat"));
    assert!(!g.rainbow_mode);
    let h = c.with_highlight("hi".to_string());
    assert_eq!(h.highlight_pattern.as_deref(), Some("hi"));
    let r = c.with_rainbow();
    assert!(r.rainbow_mode);
    assert!(c.grep_pattern.is_none());
}
