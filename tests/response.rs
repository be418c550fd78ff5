use fsqlctl::api::{decode, Decoded, ValidateResponse};
use fsqlctl::command::CommandKind;
use fsqlctl::dispatch::{classify_response, status_string, transport_cause, DispatchError, TransportCause};
use fsqlctl::json::{parse_json, pretty_json, JsonValue};
use fsqlctl::render::{count_found, render, Line, Mode, Stream};
use fsqlctl::session::{invalid_report, respond};

fn texts(lines: &[Line]) -> Vec<String> {
    lines
        .iter()
        .map(|l| {
            if l.heading.is_empty() {
                l.text.clone()
            } else if l.text.is_empty() {
                l.heading.clone()
            } else {
                format!("{} {}", l.heading, l.text)
            }
        })
        .collect()
}

#[test]
fn validate_body_without_flag_is_shown_raw() {
    let body = "{\"command\":\"validate q = 1\"}";
    assert_eq!(decode(CommandKind::Validate, body), Decoded::Raw(body.to_string()));
}

#[test]
fn validate_body_decodes() {
    let body = "{\"command\":\"validate q = 1\",\"is_valid\":true}";
    assert_eq!(
        decode(CommandKind::Validate, body),
        Decoded::Validate(ValidateResponse { command: "validate q = 1".to_string(), is_valid: true })
    );
}

#[test]
fn non_json_body_is_shown_raw() {
    assert_eq!(decode(CommandKind::Query, "oops"), Decoded::Raw("oops".to_string()));
    assert_eq!(decode(CommandKind::Invalid, "{}"), Decoded::Raw("{}".to_string()));
}

#[test]
fn wrong_member_type_is_shown_raw() {
    let body = "{\"command\":\"validate\",\"is_valid\":\"yes\"}";
    assert_eq!(decode(CommandKind::Validate, body), Decoded::Raw(body.to_string()));
    let body = "{\"command\":\"x\",\"attributes\":[\"a\",1]}";
    assert_eq!(decode(CommandKind::ExplainAttributes, body), Decoded::Raw(body.to_string()));
}

#[test]
fn attributes_decode_in_order() {
    let body = "{\"command\":\"x\",\"attributes\":[\"b\",\"a\"],\"extra\":1}";
    match decode(CommandKind::ExplainAttributes, body) {
        Decoded::ExplainAttributes(x) => {
            assert_eq!(x.command, "x");
            assert_eq!(x.attributes, vec!["b".to_string(), "a".to_string()]);
        }
        other => panic!("unexpected {:?}", other),
    }
}

#[test]
fn validate_scenario_one_shot_exits_zero() {
    let body = "{\"command\":\"validate q = 1\",\"is_valid\":true}".to_string();
    let report = respond(CommandKind::Validate, Ok(body), Mode::OneShot, false);
    assert_eq!(report.exit_code, Some(0));
    assert_eq!(texts(&report.lines), vec!["✅ Query is valid".to_string()]);
    assert_eq!(report.lines[0].stream, Stream::Stderr);
}

#[test]
fn invalid_query_one_shot_exits_one() {
    let body = "{\"command\":\"validate q\",\"is_valid\":false}".to_string();
    let report = respond(CommandKind::Validate, Ok(body), Mode::OneShot, false);
    assert_eq!(report.exit_code, Some(1));
    assert_eq!(texts(&report.lines), vec!["❌ Query is invalid".to_string()]);
}

#[test]
fn unreadable_validation_one_shot_exits_one() {
    let report = respond(CommandKind::Validate, Ok("nope".to_string()), Mode::OneShot, false);
    assert_eq!(report.exit_code, Some(1));
    assert_eq!(texts(&report.lines), vec!["nope".to_string()]);
}

#[test]
fn unauthorized_scenario() {
    let body = "{\"error\":\"unauthorized\"}";
    let outcome = classify_response(401, Some(body.to_string()));
    assert_eq!(
        outcome,
        Err(DispatchError::Http { status: 401, body: Some(body.to_string()) })
    );
    let report = respond(CommandKind::Query, outcome, Mode::OneShot, false);
    assert_eq!(report.exit_code, Some(1));
    assert_eq!(report.lines.len(), 1);
    assert_eq!(report.lines[0].stream, Stream::Stderr);
    assert_eq!(
        report.lines[0].text,
        "❌ Error dispatching command: Server returned error 401 Unauthorized: {\"error\":\"unauthorized\"}"
    );
}

#[test]
fn unreadable_error_body_and_transport_errors() {
    let e = DispatchError::Http { status: 503, body: None };
    assert_eq!(e.message(), "Server returned error 503 Service Unavailable (could not read response body)");
    assert_eq!(status_string(599), "599 <unknown status code>");
    let e = DispatchError::Transport { cause: TransportCause::Timeout, detail: "timed out".to_string() };
    assert_eq!(e.message(), "timed out");
    match classify_response(200, None) {
        Err(DispatchError::Transport { cause, .. }) => assert_eq!(cause, TransportCause::Body),
        other => panic!("unexpected {:?}", other),
    }
    assert_eq!(classify_response(204, Some("ok".to_string())), Ok("ok".to_string()));
    assert_eq!(transport_cause(true, true, true), TransportCause::Timeout);
    assert_eq!(transport_cause(false, true, true), TransportCause::Connect);
    assert_eq!(transport_cause(false, false, true), TransportCause::Request);
    assert_eq!(transport_cause(false, false, false), TransportCause::Other);
}

#[test]
fn interactive_error_goes_on() {
    let report = respond(
        CommandKind::Query,
        Err(DispatchError::Http { status: 500, body: Some("x".to_string()) }),
        Mode::Interactive,
        false,
    );
    assert_eq!(report.exit_code, None);
}

#[test]
fn zero_results_are_plural() {
    let body = "{\"command\":\"query x\",\"search_id\":\"s1\",\"trace_id\":\"t1\",\"results\":[]}";
    let d = decode(CommandKind::Query, body);
    let report = render(d, CommandKind::Query, Mode::Interactive, false);
    assert_eq!(
        texts(&report.lines),
        vec![
            "Search ID: s1".to_string(),
            "".to_string(),
            "Results:".to_string(),
            "[]".to_string(),
            "0 results found".to_string(),
        ]
    );
}

#[test]
fn count_phrases() {
    assert_eq!(count_found(1, "result", "results"), "1 result found");
    assert_eq!(count_found(2, "result", "results"), "2 results found");
    assert_eq!(count_found(10, "connector", "connectors"), "10 connectors found");
}

#[test]
fn connectors_are_pretty_printed_and_counted() {
    let body = "{\"command\":\"explain connectors\",\"connectors\":[{\"id\":1}]}";
    let d = decode(CommandKind::ExplainConnectors, body);
    let report = render(d, CommandKind::ExplainConnectors, Mode::Interactive, true);
    assert_eq!(
        texts(&report.lines),
        vec![
            "Command:".to_string(),
            "explain connectors".to_string(),
            "".to_string(),
            "Connectors:".to_string(),
            "[\n  {\n    \"id\": 1\n  }\n]".to_string(),
            "1 connector found".to_string(),
        ]
    );
}

#[test]
fn string_expanded_query_is_printed_verbatim() {
    let body = "{\"command\":\"explain x\",\"input\":\"x\",\"expanded_query\":\"a\\nb\"}";
    let d = decode(CommandKind::Explain, body);
    let report = render(d, CommandKind::Explain, Mode::OneShot, false);
    assert_eq!(texts(&report.lines), vec!["Expanded Query:".to_string(), "a\nb".to_string()]);
    assert_eq!(report.lines[1].stream, Stream::Stdout);
    assert_eq!(report.lines[0].stream, Stream::Stderr);
    assert_eq!(report.exit_code, Some(0));
}

#[test]
fn structured_expanded_query_is_pretty_printed() {
    let body = "{\"command\":\"explain x\",\"input\":\"x\",\"expanded_query\":{\"a\":[1,2]}}";
    let d = decode(CommandKind::Explain, body);
    let report = render(d, CommandKind::Explain, Mode::Interactive, false);
    assert_eq!(report.lines[1].text, "{\n  \"a\": [\n    1,\n    2\n  ]\n}");
}

#[test]
fn version_lines() {
    let body = "{\"command\":\"explain version\",\"fsql\":\"1.2\",\"qdm\":\"3.4\"}";
    let d = decode(CommandKind::ExplainVersion, body);
    let report = render(d, CommandKind::ExplainVersion, Mode::Interactive, false);
    assert_eq!(
        texts(&report.lines),
        vec!["Version Information:".to_string(), "fsql: 1.2".to_string(), " qdm: 3.4".to_string()]
    );
}

#[test]
fn json_round_trip_through_wrappers() {
    let v = parse_json("{\"b\":[true,null,\"s\"],\"a\":1.5}").unwrap();
    match &v {
        JsonValue::Object(members) => {
            assert_eq!(members.len(), 2);
            assert_eq!(members[0].0, "a");
        }
        other => panic!("unexpected {:?}", other),
    }
    assert_eq!(
        pretty_json(&v),
        "{\n  \"a\": 1.5,\n  \"b\": [\n    true,\n    null,\n    \"s\"\n  ]\n}"
    );
    assert!(parse_json("{").is_none());
}

#[test]
fn invalid_command_reports() {
    let r = invalid_report(Mode::OneShot);
    assert_eq!(r.exit_code, Some(1));
    assert_eq!(r.lines[0].text, "(╯°□°)╯︵ ┻━┻ Invalid Command");
    let r = invalid_report(Mode::Interactive);
    assert_eq!(r.exit_code, None);
    assert_eq!(r.lines.len(), 2);
}

#[test]
fn one_shot_query_writes_pretty_results_to_stdout() {
    for input in ["Query x", "QUERY x", "  query x  "] {
        let kind = fsqlctl::command::classify_command(input);
        assert_eq!(kind, CommandKind::Query);
        let body = "{\"command\":\"query x\",\"search_id\":\"s1\",\"trace_id\":\"t1\",\"results\":[]}";
        let report = respond(kind, Ok(body.to_string()), Mode::OneShot, false);
        let stdout: Vec<&str> = report
            .lines
            .iter()
            .filter(|l| l.stream == Stream::Stdout)
            .map(|l| l.text.as_str())
            .collect();
        assert_eq!(stdout, vec!["[]"]);
        assert_eq!(report.exit_code, Some(0));
    }
}

#[test]
fn explain_connectors_scenario() {
    let kind = fsqlctl::command::classify_command("EXPLAIN CONNECTORS");
    assert_eq!(kind, CommandKind::ExplainConnectors);
    let body = "{\"command\":\"EXPLAIN CONNECTORS\",\"connectors\":[]}";
    let report = respond(kind, Ok(body.to_string()), Mode::Interactive, false);
    assert_eq!(
        texts(&report.lines),
        vec!["Connectors:".to_string(), "[]".to_string(), "0 connectors found".to_string()]
    );
}

#[test]
fn one_shot_version_writes_the_response_as_json() {
    let body = "{\"command\":\"explain version\",\"fsql\":\"1.2\",\"qdm\":\"3.4\"}";
    let report = respond(CommandKind::ExplainVersion, Ok(body.to_string()), Mode::OneShot, false);
    assert_eq!(report.lines[0].stream, Stream::Stderr);
    assert_eq!(report.lines[0].heading, "Version Information:");
    assert_eq!(report.lines[1].stream, Stream::Stdout);
    assert_eq!(
        report.lines[1].text,
        "{\n  \"command\": \"explain version\",\n  \"fsql\": \"1.2\",\n  \"qdm\": \"3.4\"\n}"
    );
}

#[test]
fn one_shot_attributes_write_a_json_array() {
    let body = "{\"command\":\"explain attributes x\",\"attributes\":[\"b\",\"a\"]}";
    let report = respond(CommandKind::ExplainAttributes, Ok(body.to_string()), Mode::OneShot, false);
    assert_eq!(texts(&report.lines), vec!["Attributes:".to_string(), "[\n  \"b\",\n  \"a\"\n]".to_string()]);
    assert_eq!(report.lines[1].stream, Stream::Stdout);
    let report = respond(CommandKind::ExplainAttributes, Ok(body.to_string()), Mode::Interactive, false);
    assert_eq!(texts(&report.lines), vec!["Attributes:".to_string(), "b".to_string(), "a".to_string()]);
}

#[test]
fn one_shot_summary_writes_the_response_as_json() {
    let body = "{\"command\":\"summarize x\",\"summary\":{\"n\":2}}";
    let report = respond(CommandKind::Summarize, Ok(body.to_string()), Mode::OneShot, false);
    assert_eq!(
        report.lines[1].text,
        "{\n  \"command\": \"summarize x\",\n  \"summary\": {\n    \"n\": 2\n  }\n}"
    );
    let report = respond(CommandKind::Summarize, Ok(body.to_string()), Mode::Interactive, false);
    assert_eq!(report.lines[1].text, "{\n  \"n\": 2\n}");
}
