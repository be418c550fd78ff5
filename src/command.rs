//! Routing of command text to the kind of command it is.

use vstd::prelude::*;

use crate::text::{
    chars_of, has_prefix, lemma_trim_idempotent, lowercase_of, to_lowercase, trim, trim_spec,
    starts_with,
};

verus! {

/// The shape of an accepted command, decided by the leading words of its text.
#[derive(Clone, Copy, Debug, PartialEq, Eq, Structural)]
pub enum CommandKind {
    Query,
    Explain,
    ExplainVersion,
    ExplainConnectors,
    ExplainAttributes,
    ExplainSchema,
    ExplainGraphql,
    Validate,
    Summarize,
    Invalid,
}

/// The kind of a trimmed, lowercased command text. The sub-forms of `explain`
/// are tested before the bare `explain `.
pub open spec fn kind_of_normalized(n: Seq<char>) -> CommandKind {
    if has_prefix(n, "explain connectors"@) {
        CommandKind::ExplainConnectors
    } else if has_prefix(n, "explain schema "@) {
        CommandKind::ExplainSchema
    } else if has_prefix(n, "explain graphql "@) {
        CommandKind::ExplainGraphql
    } else if has_prefix(n, "explain version"@) {
        CommandKind::ExplainVersion
    } else if has_prefix(n, "explain attributes "@) {
        CommandKind::ExplainAttributes
    } else if has_prefix(n, "explain "@) {
        CommandKind::Explain
    } else if has_prefix(n, "summarize "@) {
        CommandKind::Summarize
    } else if has_prefix(n, "validate "@) {
        CommandKind::Validate
    } else if has_prefix(n, "query "@) {
        CommandKind::Query
    } else {
        CommandKind::Invalid
    }
}

/// The text a command is routed on: trimmed, then lowercased.
pub open spec fn normalized(s: Seq<char>) -> Seq<char> {
    lowercase_of(trim_spec(s))
}

/// The kind of an arbitrary command text.
pub open spec fn command_kind(s: Seq<char>) -> CommandKind {
    kind_of_normalized(normalized(s))
}

/// Classifies a trimmed, lowercased command text.
pub fn classify_normalized(n: &str) -> (r: CommandKind)
    ensures
        r == kind_of_normalized(n@),
{
    let cs = chars_of(n);
    if starts_with(&cs, "explain connectors") {
        CommandKind::ExplainConnectors
    } else if starts_with(&cs, "explain schema ") {
        CommandKind::ExplainSchema
    } else if starts_with(&cs, "explain graphql ") {
        CommandKind::ExplainGraphql
    } else if starts_with(&cs, "explain version") {
        CommandKind::ExplainVersion
    } else if starts_with(&cs, "explain attributes ") {
        CommandKind::ExplainAttributes
    } else if starts_with(&cs, "explain ") {
        CommandKind::Explain
    } else if starts_with(&cs, "summarize ") {
        CommandKind::Summarize
    } else if starts_with(&cs, "validate ") {
        CommandKind::Validate
    } else if starts_with(&cs, "query ") {
        CommandKind::Query
    } else {
        CommandKind::Invalid
    }
}

/// Classifies a command text: it is trimmed and lowercased, then matched
/// against the known leading words. Empty or unrecognised text is `Invalid`.
pub fn classify_command(text: &str) -> (r: CommandKind)
    ensures
        r == command_kind(text@),
{
    let t = trim(text);
    let lower = to_lowercase(t);
    classify_normalized(lower.as_str())
}

/// What the interactive shell does with a staged command.
#[derive(Clone, Copy, Debug, PartialEq, Eq, Structural)]
pub enum ShellAction {
    /// Nothing was entered: prompt again.
    Skip,
    /// Send the command to the service.
    Dispatch(CommandKind),
    Help,
    Clear,
    Exit,
    /// Report an invalid command and prompt again.
    Invalid,
}

/// The action for a staged command text in the interactive shell.
pub open spec fn shell_action_spec(s: Seq<char>) -> ShellAction {
    let n = normalized(s);
    if n.len() == 0 {
        ShellAction::Skip
    } else if kind_of_normalized(n) != CommandKind::Invalid {
        ShellAction::Dispatch(kind_of_normalized(n))
    } else if n == "help"@ || n == "h"@ {
        ShellAction::Help
    } else if n == "clear"@ {
        ShellAction::Clear
    } else if n == "exit"@ {
        ShellAction::Exit
    } else {
        ShellAction::Invalid
    }
}

/// Decides what the interactive shell does with a staged command text:
/// commands are dispatched, `help`/`h`, `clear` and `exit` are shell
/// directives, empty text is skipped and anything else is invalid.
pub fn shell_action(text: &str) -> (r: ShellAction)
    ensures
        r == shell_action_spec(text@),
{
    let t = trim(text);
    let lower = to_lowercase(t);
    if lower.as_str().unicode_len() == 0 {
        return ShellAction::Skip;
    }
    let kind = classify_normalized(lower.as_str());
    if kind != CommandKind::Invalid {
        return ShellAction::Dispatch(kind);
    }
    let cs = chars_of(lower.as_str());
    if equals(&cs, "help") || equals(&cs, "h") {
        ShellAction::Help
    } else if equals(&cs, "clear") {
        ShellAction::Clear
    } else if equals(&cs, "exit") {
        ShellAction::Exit
    } else {
        ShellAction::Invalid
    }
}

/// Whether the characters `s` spell exactly `w`.
fn equals(s: &Vec<char>, w: &str) -> (r: bool)
    ensures
        r == (s@ == w@),
{
    let b = starts_with(s, w) && s.len() == w.unicode_len();
    proof {
        if s@ == w@ {
            assert(s@.subrange(0, w@.len() as int) =~= s@);
        }
        if b {
            assert(s@ =~= s@.subrange(0, w@.len() as int));
        }
    }
    b
}

/// A command text whose normalized form begins with one of the sub-forms
/// of `explain` is never routed as the generic `explain`.
pub proof fn lemma_explain_subforms_take_priority(n: Seq<char>)
    requires
        has_prefix(n, "explain connectors"@) || has_prefix(n, "explain version"@) || has_prefix(
            n,
            "explain schema "@,
        ) || has_prefix(n, "explain graphql "@) || has_prefix(n, "explain attributes "@),
    ensures
        kind_of_normalized(n) != CommandKind::Explain,
{
}

/// Surrounding whitespace does not change the route: a command is routed
/// as its trimmed text is.
pub proof fn lemma_route_ignores_surrounding_whitespace(s: Seq<char>)
    ensures
        command_kind(trim_spec(s)) == command_kind(s),
{
    lemma_trim_idempotent(s);
}

/// Routing is case-insensitive: texts that agree once trimmed and
/// lowercased are routed alike.
pub proof fn lemma_route_case_insensitive(s: Seq<char>, t: Seq<char>)
    requires
        lowercase_of(trim_spec(s)) == lowercase_of(trim_spec(t)),
    ensures
        command_kind(s) == command_kind(t),
{
}

/// In the shell, a staged command whose normalized text begins with a
/// sub-form of `explain` is dispatched as that sub-form, never as the
/// generic `explain`.
pub proof fn lemma_shell_explain_subforms(s: Seq<char>)
    requires
        has_prefix(normalized(s), "explain connectors"@) || has_prefix(
            normalized(s),
            "explain version"@,
        ) || has_prefix(normalized(s), "explain schema "@) || has_prefix(
            normalized(s),
            "explain graphql "@,
        ) || has_prefix(normalized(s), "explain attributes "@),
    ensures
        shell_action_spec(s) == ShellAction::Dispatch(kind_of_normalized(normalized(s))),
        kind_of_normalized(normalized(s)) != CommandKind::Explain,
        kind_of_normalized(normalized(s)) != CommandKind::Invalid,
{
    reveal_strlit("explain connectors");
    reveal_strlit("explain version");
    reveal_strlit("explain schema ");
    reveal_strlit("explain graphql ");
    reveal_strlit("explain attributes ");
}

/// The shell handles two staged commands alike when they agree once
/// trimmed and lowercased.
pub proof fn lemma_shell_case_insensitive(s: Seq<char>, t: Seq<char>)
    requires
        normalized(s) == normalized(t),
    ensures
        shell_action_spec(s) == shell_action_spec(t),
{
}

/// Surrounding whitespace does not change what the shell does with a
/// staged command.
pub proof fn lemma_shell_ignores_surrounding_whitespace(s: Seq<char>)
    ensures
        shell_action_spec(trim_spec(s)) == shell_action_spec(s),
{
    lemma_trim_idempotent(s);
}

} // verus!
