//! One command's round: from the outcome of its dispatch to what is shown.

use vstd::prelude::*;
use vstd::string::*;

use crate::api::{decode, decoded, Decoded};
use crate::command::CommandKind;
use crate::dispatch::{error_message, error_report, DispatchError};
use crate::render::{
    lines_view, plain, render, rendered, report_exit, Line, Mode, Report, Stream,
};

verus! {

/// The report of a command whose dispatch ended with `outcome`: the decoded
/// response rendered, or the error.
pub open spec fn responded(
    kind: CommandKind,
    outcome: Result<String, DispatchError>,
    m: Mode,
    verbose: bool,
    r: Report,
) -> bool {
    match outcome {
        Ok(body) => exists|d: Decoded|
            {
                &&& decoded(kind, body@, d)
                &&& r.exit_code == report_exit(d, kind == CommandKind::Validate, m)
                &&& rendered(r.lines@, d, m, verbose)
            },
        Err(e) => {
            &&& lines_view(r.lines@) == seq![
                plain(Stream::Stderr, "❌ Error dispatching command: "@ + error_message(e)),
            ]
            &&& r.exit_code == match m {
                Mode::Interactive => None,
                Mode::OneShot => Some(1i32),
            }
        },
    }
}

/// What is shown for a command of kind `kind` once its dispatch ended with
/// `outcome`: the body decoded against the kind's schema and rendered, or
/// the dispatch error.
pub fn respond(kind: CommandKind, outcome: Result<String, DispatchError>, m: Mode, verbose: bool) -> (r:
    Report)
    ensures
        responded(kind, outcome, m, verbose, r),
{
    match outcome {
        Ok(body) => {
            let d = decode(kind, body.as_str());
            let ghost d0 = d;
            let r = render(d, kind, m, verbose);
            assert(decoded(kind, body@, d0));
            r
        },
        Err(e) => error_report(&e, m),
    }
}

/// The report of a command text that names no command: in the shell a hint
/// follows; a one-shot run ends with status 1.
pub open spec fn invalid_lines(m: Mode) -> Seq<(Stream, Seq<char>, Seq<char>)> {
    match m {
        Mode::Interactive => seq![
            plain(Stream::Stdout, "(╯°□°)╯︵ ┻━┻ Invalid Command"@),
            plain(Stream::Stdout, "💡 Type 'help' for available commands"@),
        ],
        Mode::OneShot => seq![plain(Stream::Stderr, "(╯°□°)╯︵ ┻━┻ Invalid Command"@)],
    }
}

/// The report of an invalid command.
pub fn invalid_report(m: Mode) -> (r: Report)
    ensures
        lines_view(r.lines@) == invalid_lines(m),
        r.exit_code == match m {
            Mode::Interactive => None,
            Mode::OneShot => Some(1i32),
        },
{
    proof {
        reveal_strlit("");
        assert(""@ =~= Seq::<char>::empty());
    }
    let mut lines: Vec<Line> = Vec::new();
    match m {
        Mode::Interactive => {
            lines.push(
                Line {
                    stream: Stream::Stdout,
                    heading: String::from_str(""),
                    text: String::from_str("(╯°□°)╯︵ ┻━┻ Invalid Command"),
                },
            );
            lines.push(
                Line {
                    stream: Stream::Stdout,
                    heading: String::from_str(""),
                    text: String::from_str("💡 Type 'help' for available commands"),
                },
            );
            assert(lines_view(lines@) =~= invalid_lines(m));
            Report { lines, exit_code: None }
        },
        Mode::OneShot => {
            lines.push(
                Line {
                    stream: Stream::Stderr,
                    heading: String::from_str(""),
                    text: String::from_str("(╯°□°)╯︵ ┻━┻ Invalid Command"),
                },
            );
            assert(lines_view(lines@) =~= invalid_lines(m));
            Report { lines, exit_code: Some(1i32) }
        },
    }
}

} // verus!
