//! What is sent for one command, and how the HTTP exchange is classified.

use vstd::prelude::*;
use vstd::string::*;

use crate::render::{lines_view, plain, Line, Mode, Report, Stream};
use crate::text::{decimal, decimal_string};
use crate::token::{auth_header, auth_header_spec, Header};

verus! {

/// The JSON text of a string: the string quoted and escaped.
pub uninterp spec fn json_quoted(s: Seq<char>) -> Seq<char>;

/// The reason phrase registered for an HTTP status code, if there is one.
pub uninterp spec fn reason_phrase(status: u16) -> Option<Seq<char>>;

/// Relies on `serde_json::to_string` of a `str`: the text depends on the
/// string alone, and writing a string into memory does not fail.
#[verifier::external_body]
fn quote_json(s: &str) -> (r: String)
    ensures
        r@ == json_quoted(s@),
{
    serde_json::to_string(s).unwrap_or_default()
}

/// Relies on `reqwest::StatusCode::canonical_reason`: the registered reason
/// phrase of a status code, which depends on the code alone.
#[verifier::external_body]
fn canonical_reason(status: u16) -> (r: Option<String>)
    ensures
        match r {
            Some(t) => reason_phrase(status) == Some(t@),
            None => reason_phrase(status) is None,
        },
{
    reqwest::StatusCode::from_u16(status).ok().and_then(|c| c.canonical_reason()).map(String::from)
}

/// The headers of a request, in order: user agent, protocol version,
/// content type, then the authentication header of the credential.
pub open spec fn headers_spec(token: Seq<char>) -> Seq<(Seq<char>, Seq<char>)> {
    seq![
        ("user-agent"@, "fsqlctl"@),
        ("x-queryai-fuql"@, "v2"@),
        ("content-type"@, "application/json"@),
        auth_header_spec(token),
    ]
}

/// The body of a request: a JSON object whose one member `q` is the command.
pub open spec fn body_spec(command: Seq<char>) -> Seq<char> {
    "{\"q\":"@ + json_quoted(command) + "}"@
}

fn header(name: &str, value: &str) -> (r: Header)
    ensures
        r.name@ == name@,
        r.value@ == value@,
{
    Header { name: String::from_str(name), value: String::from_str(value) }
}

/// The headers to send with a command, for a credential.
pub fn request_headers(token: &str) -> (r: Vec<Header>)
    ensures
        r@.map_values(|h: Header| (h.name@, h.value@)) == headers_spec(token@),
{
    let mut r: Vec<Header> = Vec::new();
    r.push(header("user-agent", "fsqlctl"));
    r.push(header("x-queryai-fuql", "v2"));
    r.push(header("content-type", "application/json"));
    r.push(auth_header(token));
    assert(r@.map_values(|h: Header| (h.name@, h.value@)) =~= headers_spec(token@));
    r
}

/// The JSON body that carries a command, verbatim.
pub fn request_body(command: &str) -> (r: String)
    ensures
        r@ == body_spec(command@),
{
    let q = quote_json(command);
    String::from_str("{\"q\":").concat(q.as_str()).concat("}")
}

/// Why a request could not be completed.
#[derive(Clone, Copy, Debug, PartialEq, Eq, Structural)]
pub enum TransportCause {
    Timeout,
    Connect,
    /// The request could not be built.
    Request,
    /// The response body of a successful exchange could not be read.
    Body,
    Other,
}

/// How the sending of one command failed.
#[derive(Debug, PartialEq, Eq)]
pub enum DispatchError {
    /// No response: `detail` is the transport's own description.
    Transport { cause: TransportCause, detail: String },
    /// A response with a status outside 2xx, and its body if it could be read.
    Http { status: u16, body: Option<String> },
}

/// The cause of a transport failure from what the transport reports; a
/// timeout is reported first, then a failed connection, then a bad request.
pub fn transport_cause(timed_out: bool, connect_failed: bool, bad_request: bool) -> (r:
    TransportCause)
    ensures
        r == (if timed_out {
            TransportCause::Timeout
        } else if connect_failed {
            TransportCause::Connect
        } else if bad_request {
            TransportCause::Request
        } else {
            TransportCause::Other
        }),
{
    if timed_out {
        TransportCause::Timeout
    } else if connect_failed {
        TransportCause::Connect
    } else if bad_request {
        TransportCause::Request
    } else {
        TransportCause::Other
    }
}

/// Whether a status code means success.
pub open spec fn success(status: u16) -> bool {
    200 <= status < 300
}

/// Classifies a response by its status code and body (`None` where the body
/// could not be read): a 2xx status gives the body, any other status an
/// `Http` error that carries the body verbatim.
pub fn classify_response(status: u16, body: Option<String>) -> (r: Result<String, DispatchError>)
    ensures
        success(status) && body is Some ==> r == Ok::<String, DispatchError>(body->0),
        success(status) && body is None ==> (r matches Err(
            DispatchError::Transport { cause: TransportCause::Body, detail },
        ) && detail@ == "could not read response body"@),
        !success(status) ==> r == Err::<String, DispatchError>(DispatchError::Http { status, body }),
{
    proof {
        reveal_strlit("could not read response body");
    }
    if 200 <= status && status < 300 {
        match body {
            Some(b) => Ok(b),
            None => Err(
                DispatchError::Transport {
                    cause: TransportCause::Body,
                    detail: String::from_str("could not read response body"),
                },
            ),
        }
    } else {
        Err(DispatchError::Http { status, body })
    }
}

/// A status code as HTTP shows it: the number, then its reason phrase.
pub open spec fn status_text(status: u16) -> Seq<char> {
    decimal(status as nat) + " "@ + match reason_phrase(status) {
        Some(p) => p,
        None => "<unknown status code>"@,
    }
}

/// The message that describes a dispatch error.
pub open spec fn error_message(e: DispatchError) -> Seq<char> {
    match e {
        DispatchError::Transport { detail, .. } => detail@,
        DispatchError::Http { status, body } => "Server returned error "@ + status_text(status)
            + match body {
            Some(b) => ": "@ + b@,
            None => " (could not read response body)"@,
        },
    }
}

/// A status code as HTTP shows it.
pub fn status_string(status: u16) -> (r: String)
    ensures
        r@ == status_text(status),
{
    let reason = match canonical_reason(status) {
        Some(p) => p,
        None => String::from_str("<unknown status code>"),
    };
    decimal_string(status as usize).concat(" ").concat(reason.as_str())
}

impl DispatchError {
    /// The message that describes this error.
    pub fn message(&self) -> (r: String)
        ensures
            r@ == error_message(*self),
    {
        match self {
            DispatchError::Transport { detail, .. } => String::from_str(detail.as_str()),
            DispatchError::Http { status, body } => {
                let head = String::from_str("Server returned error ").concat(
                    status_string(*status).as_str(),
                );
                match body {
                    Some(b) => head.concat(": ").concat(b.as_str()),
                    None => head.concat(" (could not read response body)"),
                }
            },
        }
    }
}

/// The report of a failed dispatch: the error on stderr; a one-shot run
/// ends with status 1, the shell goes on.
pub fn error_report(e: &DispatchError, m: Mode) -> (r: Report)
    ensures
        lines_view(r.lines@) == seq![
            plain(Stream::Stderr, "❌ Error dispatching command: "@ + error_message(*e)),
        ],
        r.exit_code == match m {
            Mode::Interactive => None,
            Mode::OneShot => Some(1i32),
        },
{
    let text = String::from_str("❌ Error dispatching command: ").concat(e.message().as_str());
    proof {
        reveal_strlit("");
        assert(""@ =~= Seq::<char>::empty());
    }
    let l = Line { stream: Stream::Stderr, heading: String::from_str(""), text };
    let mut lines: Vec<Line> = Vec::new();
    lines.push(l);
    assert(lines_view(lines@) =~= seq![
        plain(Stream::Stderr, "❌ Error dispatching command: "@ + error_message(*e)),
    ]);
    let exit_code = match m {
        Mode::Interactive => None,
        Mode::OneShot => Some(1i32),
    };
    Report { lines, exit_code }
}

} // verus!
