//! Presentation of decoded responses as lines of output.

use vstd::prelude::*;
use vstd::string::*;

use crate::api::{
    Decoded, ExplainAttributesResponse, ExplainConnectorsResponse, ExplainGraphqlResponse,
    ExplainResponse, ExplainSchemaResponse, ExplainVersionResponse, QueryResponse,
    SummarizeResponse, ValidateResponse,
};
use crate::command::CommandKind;
use crate::json::{json_pretty, pretty_json, JsonValue};
use crate::text::{decimal, decimal_string};

verus! {

/// Where a line of output goes.
#[derive(Clone, Copy, Debug, PartialEq, Eq, Structural)]
pub enum Stream {
    Stdout,
    Stderr,
}

/// One line of output: a heading, shown highlighted, then text; either may
/// be empty.
#[derive(Debug, PartialEq, Eq)]
pub struct Line {
    pub stream: Stream,
    pub heading: String,
    pub text: String,
}

impl View for Line {
    type V = (Stream, Seq<char>, Seq<char>);

    open spec fn view(&self) -> (Stream, Seq<char>, Seq<char>) {
        (self.stream, self.heading@, self.text@)
    }
}

/// How the session runs: an interactive shell goes on after each command,
/// a one-shot run ends with an exit status.
#[derive(Clone, Copy, Debug, PartialEq, Eq, Structural)]
pub enum Mode {
    Interactive,
    OneShot,
}

/// The rendering of one outcome: its lines, and the exit status that ends
/// a one-shot run (`None` in the shell).
#[derive(Debug, PartialEq, Eq)]
pub struct Report {
    pub lines: Vec<Line>,
    pub exit_code: Option<i32>,
}

pub open spec fn plain(s: Stream, t: Seq<char>) -> (Stream, Seq<char>, Seq<char>) {
    (s, Seq::empty(), t)
}

pub open spec fn headed(s: Stream, h: Seq<char>, t: Seq<char>) -> (Stream, Seq<char>, Seq<char>) {
    (s, h, t)
}

/// `"<n> <noun> found"`, with the plural noun unless `n` is one.
pub open spec fn count_phrase(n: nat, singular: Seq<char>, plural: Seq<char>) -> Seq<char> {
    decimal(n) + " "@ + (if n == 1 {
        singular
    } else {
        plural
    }) + " found"@
}

/// The stream of headings and messages: stdout in the shell, stderr in a
/// one-shot run, so that stdout carries only data down a pipeline.
pub open spec fn info(m: Mode) -> Stream {
    match m {
        Mode::Interactive => Stream::Stdout,
        Mode::OneShot => Stream::Stderr,
    }
}

/// The JSON that a one-shot run writes to stdout for a version, attributes
/// or summary response: the response itself, members in declaration order
/// (for attributes, the list of names). Nothing is asked of `w` otherwise.
pub open spec fn response_json(d: Decoded, m: Mode, w: JsonValue) -> bool {
    m == Mode::OneShot ==> match d {
        Decoded::ExplainVersion(x) => match w {
            JsonValue::Object(e) => {
                &&& e@.len() == 3
                &&& e@[0].0@ == "command"@ && e@[0].1 == JsonValue::String(x.command)
                &&& e@[1].0@ == "fsql"@ && e@[1].1 == JsonValue::String(x.fsql)
                &&& e@[2].0@ == "qdm"@ && e@[2].1 == JsonValue::String(x.qdm)
            },
            _ => false,
        },
        Decoded::Summarize(x) => match w {
            JsonValue::Object(e) => {
                &&& e@.len() == 2
                &&& e@[0].0@ == "command"@ && e@[0].1 == JsonValue::String(x.command)
                &&& e@[1].0@ == "summary"@ && e@[1].1 == x.summary
            },
            _ => false,
        },
        Decoded::ExplainAttributes(x) => match w {
            JsonValue::Array(a) => {
                &&& a@.len() == x.attributes@.len()
                &&& forall|i: int|
                    0 <= i < a@.len() ==> a@[i] == JsonValue::String(#[trigger] x.attributes@[i])
            },
            _ => false,
        },
        _ => true,
    }
}

/// The lines that echo the command in verbose mode.
pub open spec fn command_lines(m: Mode, verbose: bool, c: Seq<char>) -> Seq<
    (Stream, Seq<char>, Seq<char>),
> {
    if verbose {
        seq![
            headed(info(m), "Command:"@, Seq::empty()),
            plain(info(m), c),
            plain(info(m), Seq::empty()),
        ]
    } else {
        Seq::empty()
    }
}

/// The lines of a decoded response; `w` is the response's own JSON where
/// a one-shot run writes it whole (see `response_json`).
pub open spec fn report_lines(d: Decoded, m: Mode, verbose: bool, w: JsonValue) -> Seq<
    (Stream, Seq<char>, Seq<char>),
> {
    match d {
        Decoded::Validate(x) => command_lines(m, verbose, x.command@) + if x.is_valid {
            seq![plain(info(m), "✅ Query is valid"@)]
        } else {
            seq![plain(Stream::Stderr, "❌ Query is invalid"@)]
        },
        Decoded::ExplainGraphql(x) => command_lines(m, verbose, x.command@) + seq![
            headed(info(m), "Graphql Query:"@, Seq::empty()),
            plain(Stream::Stdout, x.query@),
        ],
        Decoded::ExplainVersion(x) => match m {
            Mode::Interactive => command_lines(m, verbose, x.command@) + seq![
                headed(Stream::Stdout, "Version Information:"@, Seq::empty()),
                plain(Stream::Stdout, "fsql: "@ + x.fsql@),
                plain(Stream::Stdout, " qdm: "@ + x.qdm@),
            ],
            Mode::OneShot => seq![
                headed(Stream::Stderr, "Version Information:"@, Seq::empty()),
                plain(Stream::Stdout, json_pretty(w)),
            ],
        },
        Decoded::ExplainConnectors(x) => command_lines(m, verbose, x.command@) + seq![
            headed(info(m), "Connectors:"@, Seq::empty()),
            plain(Stream::Stdout, json_pretty(JsonValue::Array(x.connectors))),
            plain(info(m), count_phrase(x.connectors@.len(), "connector"@, "connectors"@)),
        ],
        Decoded::ExplainSchema(x) => command_lines(m, verbose, x.command@) + seq![
            headed(info(m), "Schema:"@, Seq::empty()),
            plain(Stream::Stdout, json_pretty(x.schema)),
        ],
        Decoded::Summarize(x) => match m {
            Mode::Interactive => command_lines(m, verbose, x.command@) + seq![
                headed(Stream::Stdout, "Summarize Details:"@, Seq::empty()),
                plain(Stream::Stdout, json_pretty(x.summary)),
            ],
            Mode::OneShot => seq![
                headed(Stream::Stderr, "Summarize Details:"@, Seq::empty()),
                plain(Stream::Stdout, json_pretty(w)),
            ],
        },
        Decoded::ExplainAttributes(x) => command_lines(m, verbose, x.command@) + match m {
            Mode::Interactive => seq![headed(Stream::Stdout, "Attributes:"@, Seq::empty())]
                + x.attributes@.map_values(|a: String| plain(Stream::Stdout, a@)),
            Mode::OneShot => seq![
                headed(Stream::Stderr, "Attributes:"@, Seq::empty()),
                plain(Stream::Stdout, json_pretty(w)),
            ],
        },
        Decoded::Explain(x) => (if verbose {
            seq![
                headed(info(m), "Original Input:"@, Seq::empty()),
                plain(info(m), x.input@),
                plain(info(m), Seq::empty()),
            ]
        } else {
            Seq::empty()
        }) + command_lines(m, verbose, x.command@) + seq![
            headed(info(m), "Expanded Query:"@, Seq::empty()),
            plain(
                Stream::Stdout,
                match x.expanded_query {
                    JsonValue::String(s) => s@,
                    _ => json_pretty(x.expanded_query),
                },
            ),
        ],
        Decoded::Query(x) => (if verbose {
            seq![
                headed(info(m), "Command:"@, x.command@),
                plain(info(m), Seq::empty()),
                headed(info(m), "Trace ID:"@, x.trace_id@),
                plain(info(m), Seq::empty()),
            ]
        } else {
            Seq::empty()
        }) + seq![
            headed(info(m), "Search ID:"@, x.search_id@),
            plain(info(m), Seq::empty()),
            headed(info(m), "Results:"@, Seq::empty()),
            plain(Stream::Stdout, json_pretty(JsonValue::Array(x.results))),
            plain(info(m), count_phrase(x.results@.len(), "result"@, "results"@)),
        ],
        Decoded::Raw(t) => seq![plain(info(m), t@)],
    }
}

/// The exit status after a response: in a one-shot run, failure for a query
/// found invalid or a validation answer that could not be read, success
/// otherwise. The shell goes on.
pub open spec fn report_exit(d: Decoded, validating: bool, m: Mode) -> Option<i32> {
    match m {
        Mode::Interactive => None,
        Mode::OneShot => match d {
            Decoded::Validate(x) => Some(
                if x.is_valid {
                    0i32
                } else {
                    1i32
                },
            ),
            Decoded::Raw(_) => Some(
                if validating {
                    1i32
                } else {
                    0i32
                },
            ),
            _ => Some(0i32),
        },
    }
}

/// `"<n> <noun> found"`, with the plural noun unless `n` is one.
pub fn count_found(n: usize, singular: &str, plural: &str) -> (r: String)
    ensures
        r@ == count_phrase(n as nat, singular@, plural@),
{
    proof {
        reveal_strlit(" ");
        reveal_strlit(" found");
    }
    let noun = if n == 1 {
        singular
    } else {
        plural
    };
    decimal_string(n).concat(" ").concat(noun).concat(" found")
}

fn line(stream: Stream, heading: &str, text: &str) -> (r: Line)
    ensures
        r@ == headed(stream, heading@, text@),
{
    Line { stream, heading: String::from_str(heading), text: String::from_str(text) }
}

fn text_line(stream: Stream, text: String) -> (r: Line)
    ensures
        r@ == plain(stream, text@),
{
    proof {
        reveal_strlit("");
        assert(""@ =~= Seq::<char>::empty());
    }
    Line { stream, heading: String::from_str(""), text }
}

fn info_stream(m: Mode) -> (r: Stream)
    ensures
        r == info(m),
{
    match m {
        Mode::Interactive => Stream::Stdout,
        Mode::OneShot => Stream::Stderr,
    }
}

fn push_command_lines(out: &mut Vec<Line>, m: Mode, verbose: bool, c: &str)
    ensures
        final(out)@.map_values(|l: Line| l@) == old(out)@.map_values(|l: Line| l@)
            + command_lines(m, verbose, c@),
{
    proof {
        reveal_strlit("");
        reveal_strlit("Command:");
        assert(""@ =~= Seq::<char>::empty());
    }
    let ghost before = out@.map_values(|l: Line| l@);
    if verbose {
        let s = info_stream(m);
        out.push(line(s, "Command:", ""));
        out.push(line(s, "", c));
        out.push(line(s, "", ""));
    }
    assert(out@.map_values(|l: Line| l@) =~= before + command_lines(m, verbose, c@));
}

pub open spec fn lines_view(lines: Seq<Line>) -> Seq<(Stream, Seq<char>, Seq<char>)> {
    lines.map_values(|l: Line| l@)
}

fn push_line(out: &mut Vec<Line>, l: Line)
    ensures
        lines_view(final(out)@) == lines_view(old(out)@).push(l@),
{
    let ghost before = out@;
    out.push(l);
    assert(lines_view(out@) =~= lines_view(before).push(l@));
}

/// `lines` is the rendering of `d`.
pub open spec fn rendered(lines: Seq<Line>, d: Decoded, m: Mode, verbose: bool) -> bool {
    exists|w: JsonValue|
        #[trigger] response_json(d, m, w) && lines_view(lines) == report_lines(d, m, verbose, w)
}

fn render_validate(x: ValidateResponse, m: Mode, verbose: bool) -> (r: Vec<Line>)
    ensures
        lines_view(r@) == report_lines(Decoded::Validate(x), m, verbose, JsonValue::Null),
{
    let mut out: Vec<Line> = Vec::new();
    push_command_lines(&mut out, m, verbose, x.command.as_str());
    if x.is_valid {
        push_line(&mut out, line(info_stream(m), "", "✅ Query is valid"));
    } else {
        push_line(&mut out, line(Stream::Stderr, "", "❌ Query is invalid"));
    }
    proof {
        reveal_strlit("");
        assert(""@ =~= Seq::<char>::empty());
    }
    assert(lines_view(out@) =~= report_lines(Decoded::Validate(x), m, verbose, JsonValue::Null));
    out
}

fn render_graphql(x: ExplainGraphqlResponse, m: Mode, verbose: bool) -> (r: Vec<Line>)
    ensures
        lines_view(r@) == report_lines(Decoded::ExplainGraphql(x), m, verbose, JsonValue::Null),
{
    let ghost x0 = x;
    let mut out: Vec<Line> = Vec::new();
    push_command_lines(&mut out, m, verbose, x.command.as_str());
    push_line(&mut out, line(info_stream(m), "Graphql Query:", ""));
    push_line(&mut out, text_line(Stream::Stdout, x.query));
    proof {
        reveal_strlit("");
        assert(""@ =~= Seq::<char>::empty());
    }
    assert(lines_view(out@) =~= report_lines(
        Decoded::ExplainGraphql(x0),
        m,
        verbose,
        JsonValue::Null,
    ));
    out
}

fn member(key: &str, value: JsonValue) -> (r: (String, JsonValue))
    ensures
        r.0@ == key@,
        r.1 == value,
{
    (String::from_str(key), value)
}

fn render_version(x: ExplainVersionResponse, m: Mode, verbose: bool) -> (r: Vec<Line>)
    ensures
        rendered(r@, Decoded::ExplainVersion(x), m, verbose),
{
    let ghost x0 = x;
    proof {
        reveal_strlit("");
        assert(""@ =~= Seq::<char>::empty());
    }
    let mut out: Vec<Line> = Vec::new();
    match m {
        Mode::Interactive => {
            push_command_lines(&mut out, m, verbose, x.command.as_str());
            push_line(&mut out, line(Stream::Stdout, "Version Information:", ""));
            proof {
                reveal_strlit("fsql: ");
                reveal_strlit(" qdm: ");
            }
            push_line(
                &mut out,
                text_line(Stream::Stdout, String::from_str("fsql: ").concat(x.fsql.as_str())),
            );
            push_line(
                &mut out,
                text_line(Stream::Stdout, String::from_str(" qdm: ").concat(x.qdm.as_str())),
            );
            assert(response_json(Decoded::ExplainVersion(x0), m, JsonValue::Null));
            assert(lines_view(out@) =~= report_lines(
                Decoded::ExplainVersion(x0),
                m,
                verbose,
                JsonValue::Null,
            ));
        },
        Mode::OneShot => {
            push_line(&mut out, line(Stream::Stderr, "Version Information:", ""));
            let mut e: Vec<(String, JsonValue)> = Vec::new();
            e.push(member("command", JsonValue::String(x.command)));
            e.push(member("fsql", JsonValue::String(x.fsql)));
            e.push(member("qdm", JsonValue::String(x.qdm)));
            let w = JsonValue::Object(e);
            push_line(&mut out, text_line(Stream::Stdout, pretty_json(&w)));
            assert(response_json(Decoded::ExplainVersion(x0), m, w));
            assert(lines_view(out@) =~= report_lines(Decoded::ExplainVersion(x0), m, verbose, w));
        },
    }
    out
}

fn render_connectors(x: ExplainConnectorsResponse, m: Mode, verbose: bool) -> (r: Vec<Line>)
    ensures
        lines_view(r@) == report_lines(Decoded::ExplainConnectors(x), m, verbose, JsonValue::Null),
{
    let ghost x0 = x;
    let mut out: Vec<Line> = Vec::new();
    push_command_lines(&mut out, m, verbose, x.command.as_str());
    push_line(&mut out, line(info_stream(m), "Connectors:", ""));
    let n = x.connectors.len();
    let v = JsonValue::Array(x.connectors);
    push_line(&mut out, text_line(Stream::Stdout, pretty_json(&v)));
    push_line(&mut out, text_line(info_stream(m), count_found(n, "connector", "connectors")));
    proof {
        reveal_strlit("");
        assert(""@ =~= Seq::<char>::empty());
    }
    assert(lines_view(out@) =~= report_lines(
        Decoded::ExplainConnectors(x0),
        m,
        verbose,
        JsonValue::Null,
    ));
    out
}

fn render_schema(x: ExplainSchemaResponse, m: Mode, verbose: bool) -> (r: Vec<Line>)
    ensures
        lines_view(r@) == report_lines(Decoded::ExplainSchema(x), m, verbose, JsonValue::Null),
{
    let mut out: Vec<Line> = Vec::new();
    push_command_lines(&mut out, m, verbose, x.command.as_str());
    push_line(&mut out, line(info_stream(m), "Schema:", ""));
    push_line(&mut out, text_line(Stream::Stdout, pretty_json(&x.schema)));
    proof {
        reveal_strlit("");
        assert(""@ =~= Seq::<char>::empty());
    }
    assert(lines_view(out@) =~= report_lines(
        Decoded::ExplainSchema(x),
        m,
        verbose,
        JsonValue::Null,
    ));
    out
}

fn render_summarize(x: SummarizeResponse, m: Mode, verbose: bool) -> (r: Vec<Line>)
    ensures
        rendered(r@, Decoded::Summarize(x), m, verbose),
{
    let ghost x0 = x;
    proof {
        reveal_strlit("");
        assert(""@ =~= Seq::<char>::empty());
    }
    let mut out: Vec<Line> = Vec::new();
    match m {
        Mode::Interactive => {
            push_command_lines(&mut out, m, verbose, x.command.as_str());
            push_line(&mut out, line(Stream::Stdout, "Summarize Details:", ""));
            push_line(&mut out, text_line(Stream::Stdout, pretty_json(&x.summary)));
            assert(response_json(Decoded::Summarize(x0), m, JsonValue::Null));
            assert(lines_view(out@) =~= report_lines(
                Decoded::Summarize(x0),
                m,
                verbose,
                JsonValue::Null,
            ));
        },
        Mode::OneShot => {
            push_line(&mut out, line(Stream::Stderr, "Summarize Details:", ""));
            let mut e: Vec<(String, JsonValue)> = Vec::new();
            e.push(member("command", JsonValue::String(x.command)));
            e.push(member("summary", x.summary));
            let w = JsonValue::Object(e);
            push_line(&mut out, text_line(Stream::Stdout, pretty_json(&w)));
            assert(response_json(Decoded::Summarize(x0), m, w));
            assert(lines_view(out@) =~= report_lines(Decoded::Summarize(x0), m, verbose, w));
        },
    }
    out
}

fn render_attributes(x: ExplainAttributesResponse, m: Mode, verbose: bool) -> (r: Vec<Line>)
    ensures
        rendered(r@, Decoded::ExplainAttributes(x), m, verbose),
{
    let ghost x0 = x;
    proof {
        reveal_strlit("");
        assert(""@ =~= Seq::<char>::empty());
    }
    let mut out: Vec<Line> = Vec::new();
    push_command_lines(&mut out, m, verbose, x.command.as_str());
    let ghost base = lines_view(out@);
    let ghost attrs = x.attributes@;
    let mut attributes = x.attributes;
    match m {
        Mode::Interactive => {
            push_line(&mut out, line(Stream::Stdout, "Attributes:", ""));
            let ghost start = lines_view(out@);
            let mut i: usize = 0;
            let n = attributes.len();
            while i < n
                invariant
                    n == attrs.len(),
                    i <= n,
                    attributes@ == attrs.subrange(i as int, n as int),
                    lines_view(out@) == start + attrs.subrange(0, i as int).map_values(
                        |a: String| plain(Stream::Stdout, a@),
                    ),
                decreases n - i,
            {
                let a = attributes.remove(0);
                assert(a == attrs[i as int]);
                assert(attributes@ =~= attrs.subrange(i as int + 1, n as int));
                push_line(&mut out, text_line(Stream::Stdout, a));
                assert(attrs.subrange(0, i as int + 1).map_values(
                    |a: String| plain(Stream::Stdout, a@),
                ) =~= attrs.subrange(0, i as int).map_values(
                    |a: String| plain(Stream::Stdout, a@),
                ).push(plain(Stream::Stdout, attrs[i as int]@)));
                i = i + 1;
            }
            assert(attrs.subrange(0, n as int) =~= attrs);
            assert(response_json(Decoded::ExplainAttributes(x0), m, JsonValue::Null));
            assert(lines_view(out@) =~= report_lines(
                Decoded::ExplainAttributes(x0),
                m,
                verbose,
                JsonValue::Null,
            ));
        },
        Mode::OneShot => {
            push_line(&mut out, line(Stream::Stderr, "Attributes:", ""));
            let mut items: Vec<JsonValue> = Vec::new();
            let mut i: usize = 0;
            let n = attributes.len();
            while i < n
                invariant
                    n == attrs.len(),
                    i <= n,
                    attributes@ == attrs.subrange(i as int, n as int),
                    items@.len() == i,
                    forall|j: int| 0 <= j < i ==> items@[j] == JsonValue::String(attrs[j]),
                decreases n - i,
            {
                let a = attributes.remove(0);
                assert(a == attrs[i as int]);
                assert(attributes@ =~= attrs.subrange(i as int + 1, n as int));
                items.push(JsonValue::String(a));
                i = i + 1;
            }
            let w = JsonValue::Array(items);
            push_line(&mut out, text_line(Stream::Stdout, pretty_json(&w)));
            assert(response_json(Decoded::ExplainAttributes(x0), m, w));
            assert(lines_view(out@) =~= report_lines(
                Decoded::ExplainAttributes(x0),
                m,
                verbose,
                w,
            ));
        },
    }
    out
}

fn render_explain(x: ExplainResponse, m: Mode, verbose: bool) -> (r: Vec<Line>)
    ensures
        lines_view(r@) == report_lines(Decoded::Explain(x), m, verbose, JsonValue::Null),
{
    let ghost x0 = x;
    let s = info_stream(m);
    let mut out: Vec<Line> = Vec::new();
    if verbose {
        push_line(&mut out, line(s, "Original Input:", ""));
        push_line(&mut out, text_line(s, x.input));
        push_line(&mut out, line(s, "", ""));
    }
    push_command_lines(&mut out, m, verbose, x.command.as_str());
    push_line(&mut out, line(s, "Expanded Query:", ""));
    match x.expanded_query {
        JsonValue::String(q) => {
            push_line(&mut out, text_line(Stream::Stdout, q));
        },
        other => {
            push_line(&mut out, text_line(Stream::Stdout, pretty_json(&other)));
        },
    }
    proof {
        reveal_strlit("");
        assert(""@ =~= Seq::<char>::empty());
    }
    assert(lines_view(out@) =~= report_lines(Decoded::Explain(x0), m, verbose, JsonValue::Null));
    out
}

fn render_query(x: QueryResponse, m: Mode, verbose: bool) -> (r: Vec<Line>)
    ensures
        lines_view(r@) == report_lines(Decoded::Query(x), m, verbose, JsonValue::Null),
{
    let ghost x0 = x;
    let s = info_stream(m);
    let mut out: Vec<Line> = Vec::new();
    if verbose {
        push_line(&mut out, line(s, "Command:", x.command.as_str()));
        push_line(&mut out, line(s, "", ""));
        push_line(&mut out, line(s, "Trace ID:", x.trace_id.as_str()));
        push_line(&mut out, line(s, "", ""));
    }
    push_line(&mut out, line(s, "Search ID:", x.search_id.as_str()));
    push_line(&mut out, line(s, "", ""));
    push_line(&mut out, line(s, "Results:", ""));
    let n = x.results.len();
    let v = JsonValue::Array(x.results);
    push_line(&mut out, text_line(Stream::Stdout, pretty_json(&v)));
    push_line(&mut out, text_line(s, count_found(n, "result", "results")));
    proof {
        reveal_strlit("");
        assert(""@ =~= Seq::<char>::empty());
    }
    assert(lines_view(out@) =~= report_lines(Decoded::Query(x0), m, verbose, JsonValue::Null));
    out
}

/// The exit status of a run in mode `m` after a response to a command of
/// kind `kind`, decoded as `d`.
pub fn exit_code_for(d: &Decoded, kind: CommandKind, m: Mode) -> (r: Option<i32>)
    ensures
        r == report_exit(*d, kind == CommandKind::Validate, m),
{
    match m {
        Mode::Interactive => None,
        Mode::OneShot => Some(
            match d {
                Decoded::Validate(x) => if x.is_valid {
                    0i32
                } else {
                    1i32
                },
                Decoded::Raw(_) => if kind == CommandKind::Validate {
                    1i32
                } else {
                    0i32
                },
                _ => 0i32,
            },
        ),
    }
}

/// Renders the response to a command of kind `kind`, decoded as `d`, as the
/// lines to print and the exit status of a one-shot run.
pub fn render(d: Decoded, kind: CommandKind, m: Mode, verbose: bool) -> (r: Report)
    ensures
        r.exit_code == report_exit(d, kind == CommandKind::Validate, m),
        rendered(r.lines@, d, m, verbose),
{
    let ghost d0 = d;
    let exit_code = exit_code_for(&d, kind, m);
    proof {
        assert(response_json(d0, m, JsonValue::Null) || d0 is ExplainVersion || d0 is Summarize
            || d0 is ExplainAttributes);
    }
    let lines = match d {
        Decoded::Validate(x) => render_validate(x, m, verbose),
        Decoded::ExplainGraphql(x) => render_graphql(x, m, verbose),
        Decoded::ExplainVersion(x) => render_version(x, m, verbose),
        Decoded::ExplainConnectors(x) => render_connectors(x, m, verbose),
        Decoded::ExplainSchema(x) => render_schema(x, m, verbose),
        Decoded::Summarize(x) => render_summarize(x, m, verbose),
        Decoded::ExplainAttributes(x) => render_attributes(x, m, verbose),
        Decoded::Explain(x) => render_explain(x, m, verbose),
        Decoded::Query(x) => render_query(x, m, verbose),
        Decoded::Raw(t) => {
            let mut out: Vec<Line> = Vec::new();
            push_line(&mut out, text_line(info_stream(m), t));
            assert(lines_view(out@) =~= report_lines(d0, m, verbose, JsonValue::Null));
            out
        },
    };
    Report { lines, exit_code }
}

/// A query answered with no results reports them in the plural:
/// `0 results found`.
pub proof fn lemma_no_results_plural(
    x: QueryResponse,
    m: Mode,
    verbose: bool,
    w: JsonValue,
)
    requires
        x.results@.len() == 0,
    ensures
        report_lines(Decoded::Query(x), m, verbose, w).last() == plain(
            info(m),
            "0 results found"@,
        ),
{
    reveal_strlit("0 results found");
    reveal_strlit(" ");
    reveal_strlit(" found");
    reveal_strlit("results");
    assert(decimal(0) =~= seq!['0']);
    assert(count_phrase(0, "result"@, "results"@) =~= "0 results found"@);
}

} // verus!
