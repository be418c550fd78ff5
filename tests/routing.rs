use fsqlctl::command::{classify_command, shell_action, CommandKind, ShellAction};

#[test]
fn case_and_surrounding_space_do_not_matter() {
    assert_eq!(classify_command("Query x"), CommandKind::Query);
    assert_eq!(classify_command("QUERY x"), CommandKind::Query);
    assert_eq!(classify_command("  query x  "), CommandKind::Query);
    assert_eq!(classify_command("\tQuErY x\n"), CommandKind::Query);
}

#[test]
fn explain_subforms_come_before_explain() {
    assert_eq!(classify_command("explain connectors"), CommandKind::ExplainConnectors);
    assert_eq!(classify_command("EXPLAIN VERSION"), CommandKind::ExplainVersion);
    assert_eq!(classify_command("explain schema a.b"), CommandKind::ExplainSchema);
    assert_eq!(classify_command("explain graphql x"), CommandKind::ExplainGraphql);
    assert_eq!(classify_command("explain attributes x"), CommandKind::ExplainAttributes);
    assert_eq!(classify_command("explain x"), CommandKind::Explain);
    assert_eq!(classify_command("explain schema"), CommandKind::Explain);
}

#[test]
fn top_level_keywords() {
    assert_eq!(classify_command("validate q = 1"), CommandKind::Validate);
    assert_eq!(classify_command("summarize x"), CommandKind::Summarize);
    assert_eq!(classify_command("query"), CommandKind::Invalid);
    assert_eq!(classify_command(""), CommandKind::Invalid);
    assert_eq!(classify_command("select *"), CommandKind::Invalid);
}

#[test]
fn shell_directives() {
    assert_eq!(shell_action("  "), ShellAction::Skip);
    assert_eq!(shell_action(""), ShellAction::Skip);
    assert_eq!(shell_action("  Explain Connectors "), ShellAction::Dispatch(CommandKind::ExplainConnectors));
    assert_eq!(shell_action("help"), ShellAction::Help);
    assert_eq!(shell_action("H"), ShellAction::Help);
    assert_eq!(shell_action("clear"), ShellAction::Clear);
    assert_eq!(shell_action("EXIT"), ShellAction::Exit);
    assert_eq!(shell_action("nonsense"), ShellAction::Invalid);
    assert_eq!(shell_action("query x;"), ShellAction::Dispatch(CommandKind::Query));
}

#[test]
fn whitespace_agrees_with_std_on_every_char() {
    for u in 0u32..=0x10ffff {
        if let Some(c) = char::from_u32(u) {
            assert_eq!(fsqlctl::text::is_whitespace(c), c.is_whitespace(), "U+{:04X}", u);
        }
    }
}
