//! The typed responses of the service and their decoding, with the raw body
//! as the fallback whenever a body does not fit its command's schema.

use vstd::prelude::*;
use vstd::string::*;

use crate::command::CommandKind;
use crate::json::{field, json_parse, keys_distinct, parse_json, take_fields, JsonValue};

verus! {

/// Response to `EXPLAIN CONNECTORS`.
#[derive(Debug, PartialEq)]
pub struct ExplainConnectorsResponse {
    pub command: String,
    pub connectors: Vec<JsonValue>,
}

/// Response to `EXPLAIN VERSION`.
#[derive(Debug, PartialEq)]
pub struct ExplainVersionResponse {
    pub command: String,
    pub fsql: String,
    pub qdm: String,
}

/// Response to `EXPLAIN ATTRIBUTES`.
#[derive(Debug, PartialEq)]
pub struct ExplainAttributesResponse {
    pub command: String,
    pub attributes: Vec<String>,
}

/// Response to `EXPLAIN SCHEMA`.
#[derive(Debug, PartialEq)]
pub struct ExplainSchemaResponse {
    pub command: String,
    pub schema: JsonValue,
}

/// Response to `EXPLAIN GRAPHQL`.
#[derive(Debug, PartialEq)]
pub struct ExplainGraphqlResponse {
    pub command: String,
    pub query: String,
}

/// Response to `EXPLAIN`.
#[derive(Debug, PartialEq)]
pub struct ExplainResponse {
    pub command: String,
    pub input: String,
    pub expanded_query: JsonValue,
}

/// Response to `VALIDATE`.
#[derive(Debug, PartialEq)]
pub struct ValidateResponse {
    pub command: String,
    pub is_valid: bool,
}

/// Response to `SUMMARIZE`.
#[derive(Debug, PartialEq)]
pub struct SummarizeResponse {
    pub command: String,
    pub summary: JsonValue,
}

/// Response to `QUERY`.
#[derive(Debug, PartialEq)]
pub struct QueryResponse {
    pub command: String,
    pub search_id: String,
    pub trace_id: String,
    pub results: Vec<JsonValue>,
}

/// A response body, decoded against the schema of its command, or the body
/// itself where it does not fit.
#[derive(Debug, PartialEq)]
pub enum Decoded {
    Query(QueryResponse),
    Explain(ExplainResponse),
    ExplainVersion(ExplainVersionResponse),
    ExplainConnectors(ExplainConnectorsResponse),
    ExplainAttributes(ExplainAttributesResponse),
    ExplainSchema(ExplainSchemaResponse),
    ExplainGraphql(ExplainGraphqlResponse),
    Validate(ValidateResponse),
    Summarize(SummarizeResponse),
    Raw(String),
}

pub open spec fn members(v: JsonValue) -> Option<Seq<(String, JsonValue)>> {
    match v {
        JsonValue::Object(e) => Some(e@),
        _ => None,
    }
}

pub open spec fn str_field(e: Seq<(String, JsonValue)>, k: Seq<char>) -> Option<String> {
    match field(e, k) {
        Some(JsonValue::String(s)) => Some(s),
        _ => None,
    }
}

pub open spec fn array_field(e: Seq<(String, JsonValue)>, k: Seq<char>) -> Option<Vec<JsonValue>> {
    match field(e, k) {
        Some(JsonValue::Array(a)) => Some(a),
        _ => None,
    }
}

pub open spec fn validate_of(v: JsonValue) -> Option<ValidateResponse> {
    match members(v) {
        Some(e) => match (str_field(e, "command"@), field(e, "is_valid"@)) {
            (Some(c), Some(JsonValue::Bool(b))) => Some(ValidateResponse { command: c, is_valid: b }),
            _ => None,
        },
        None => None,
    }
}

pub open spec fn version_of(v: JsonValue) -> Option<ExplainVersionResponse> {
    match members(v) {
        Some(e) => match (str_field(e, "command"@), str_field(e, "fsql"@), str_field(e, "qdm"@)) {
            (Some(c), Some(f), Some(q)) => Some(ExplainVersionResponse { command: c, fsql: f, qdm: q }),
            _ => None,
        },
        None => None,
    }
}

pub open spec fn graphql_of(v: JsonValue) -> Option<ExplainGraphqlResponse> {
    match members(v) {
        Some(e) => match (str_field(e, "command"@), str_field(e, "query"@)) {
            (Some(c), Some(q)) => Some(ExplainGraphqlResponse { command: c, query: q }),
            _ => None,
        },
        None => None,
    }
}

pub open spec fn connectors_of(v: JsonValue) -> Option<ExplainConnectorsResponse> {
    match members(v) {
        Some(e) => match (str_field(e, "command"@), array_field(e, "connectors"@)) {
            (Some(c), Some(a)) => Some(ExplainConnectorsResponse { command: c, connectors: a }),
            _ => None,
        },
        None => None,
    }
}

pub open spec fn schema_of(v: JsonValue) -> Option<ExplainSchemaResponse> {
    match members(v) {
        Some(e) => match (str_field(e, "command"@), field(e, "schema"@)) {
            (Some(c), Some(s)) => Some(ExplainSchemaResponse { command: c, schema: s }),
            _ => None,
        },
        None => None,
    }
}

pub open spec fn explain_of(v: JsonValue) -> Option<ExplainResponse> {
    match members(v) {
        Some(e) => match (
            str_field(e, "command"@),
            str_field(e, "input"@),
            field(e, "expanded_query"@),
        ) {
            (Some(c), Some(i), Some(x)) => Some(
                ExplainResponse { command: c, input: i, expanded_query: x },
            ),
            _ => None,
        },
        None => None,
    }
}

pub open spec fn summarize_of(v: JsonValue) -> Option<SummarizeResponse> {
    match members(v) {
        Some(e) => match (str_field(e, "command"@), field(e, "summary"@)) {
            (Some(c), Some(s)) => Some(SummarizeResponse { command: c, summary: s }),
            _ => None,
        },
        None => None,
    }
}

pub open spec fn query_of(v: JsonValue) -> Option<QueryResponse> {
    match members(v) {
        Some(e) => match (
            str_field(e, "command"@),
            str_field(e, "search_id"@),
            str_field(e, "trace_id"@),
            array_field(e, "results"@),
        ) {
            (Some(c), Some(s), Some(t), Some(a)) => Some(
                QueryResponse { command: c, search_id: s, trace_id: t, results: a },
            ),
            _ => None,
        },
        None => None,
    }
}

/// Whether every item is a JSON string.
pub open spec fn all_strings(items: Seq<JsonValue>) -> bool {
    forall|i: int| 0 <= i < items.len() ==> #[trigger] items[i] is String
}

/// `r` is what an `EXPLAIN ATTRIBUTES` response decodes to: `None` unless
/// `v` has a string `command` and an array of strings `attributes`.
pub open spec fn attributes_decoded(v: JsonValue, r: Option<ExplainAttributesResponse>) -> bool {
    match (members(v), r) {
        (Some(e), Some(x)) => {
            &&& str_field(e, "command"@) == Some(x.command)
            &&& array_field(e, "attributes"@) is Some
            &&& array_field(e, "attributes"@)->0@.len() == x.attributes@.len()
            &&& forall|i: int|
                0 <= i < x.attributes@.len() ==> array_field(e, "attributes"@)->0@[i]
                    == JsonValue::String(#[trigger] x.attributes@[i])
        },
        (Some(e), None) => !{
            &&& str_field(e, "command"@) is Some
            &&& array_field(e, "attributes"@) is Some
            &&& all_strings(array_field(e, "attributes"@)->0@)
        },
        (None, r) => r is None,
    }
}

/// Members of `v`, looked up by `keys`, if `v` is an object.
fn object_fields(v: JsonValue, keys: &Vec<&str>) -> (r: Option<Vec<Option<JsonValue>>>)
    requires
        keys_distinct(keys@),
    ensures
        r is Some <==> members(v) is Some,
        r matches Some(f) ==> f@.len() == keys@.len() && forall|i: int|
            0 <= i < keys@.len() ==> f@[i] == field(members(v)->0, keys@[i]@),
{
    match v {
        JsonValue::Object(e) => Some(take_fields(e, keys)),
        _ => None,
    }
}

/// Decodes a `VALIDATE` response.
pub fn decode_validate(v: JsonValue) -> (r: Option<ValidateResponse>)
    ensures
        r == validate_of(v),
{
    let keys = vec!["command", "is_valid"];
    proof {
        reveal_strlit("command");
        reveal_strlit("is_valid");
        assert(keys@.len() == 2);
        assert(keys@[0]@.len() != keys@[1]@.len());
    }
    let mut f = match object_fields(v, &keys) {
        Some(f) => f,
        None => { return None; },
    };
    let b = f.pop();
    let c = f.pop();
    match (c, b) {
        (Some(Some(JsonValue::String(c))), Some(Some(JsonValue::Bool(b)))) => Some(
            ValidateResponse { command: c, is_valid: b },
        ),
        _ => None,
    }
}

/// Decodes an `EXPLAIN VERSION` response.
pub fn decode_version(v: JsonValue) -> (r: Option<ExplainVersionResponse>)
    ensures
        r == version_of(v),
{
    let keys = vec!["command", "fsql", "qdm"];
    proof {
        reveal_strlit("command");
        reveal_strlit("fsql");
        reveal_strlit("qdm");
        assert(keys@.len() == 3);
        assert(keys@[0]@.len() != keys@[1]@.len());
        assert(keys@[0]@.len() != keys@[2]@.len());
        assert(keys@[1]@.len() != keys@[2]@.len());
    }
    let mut f = match object_fields(v, &keys) {
        Some(f) => f,
        None => { return None; },
    };
    let q = f.pop();
    let s = f.pop();
    let c = f.pop();
    match (c, s, q) {
        (
            Some(Some(JsonValue::String(c))),
            Some(Some(JsonValue::String(s))),
            Some(Some(JsonValue::String(q))),
        ) => Some(ExplainVersionResponse { command: c, fsql: s, qdm: q }),
        _ => None,
    }
}

/// Decodes an `EXPLAIN GRAPHQL` response.
pub fn decode_graphql(v: JsonValue) -> (r: Option<ExplainGraphqlResponse>)
    ensures
        r == graphql_of(v),
{
    let keys = vec!["command", "query"];
    proof {
        reveal_strlit("command");
        reveal_strlit("query");
        assert(keys@.len() == 2);
        assert(keys@[0]@.len() != keys@[1]@.len());
    }
    let mut f = match object_fields(v, &keys) {
        Some(f) => f,
        None => { return None; },
    };
    let q = f.pop();
    let c = f.pop();
    match (c, q) {
        (Some(Some(JsonValue::String(c))), Some(Some(JsonValue::String(q)))) => Some(
            ExplainGraphqlResponse { command: c, query: q },
        ),
        _ => None,
    }
}

/// Decodes an `EXPLAIN CONNECTORS` response.
pub fn decode_connectors(v: JsonValue) -> (r: Option<ExplainConnectorsResponse>)
    ensures
        r == connectors_of(v),
{
    let keys = vec!["command", "connectors"];
    proof {
        reveal_strlit("command");
        reveal_strlit("connectors");
        assert(keys@.len() == 2);
        assert(keys@[0]@.len() != keys@[1]@.len());
    }
    let mut f = match object_fields(v, &keys) {
        Some(f) => f,
        None => { return None; },
    };
    let a = f.pop();
    let c = f.pop();
    match (c, a) {
        (Some(Some(JsonValue::String(c))), Some(Some(JsonValue::Array(a)))) => Some(
            ExplainConnectorsResponse { command: c, connectors: a },
        ),
        _ => None,
    }
}

/// Decodes an `EXPLAIN SCHEMA` response.
pub fn decode_schema(v: JsonValue) -> (r: Option<ExplainSchemaResponse>)
    ensures
        r == schema_of(v),
{
    let keys = vec!["command", "schema"];
    proof {
        reveal_strlit("command");
        reveal_strlit("schema");
        assert(keys@.len() == 2);
        assert(keys@[0]@.len() != keys@[1]@.len());
    }
    let mut f = match object_fields(v, &keys) {
        Some(f) => f,
        None => { return None; },
    };
    let x = f.pop();
    let c = f.pop();
    match (c, x) {
        (Some(Some(JsonValue::String(c))), Some(Some(x))) => Some(
            ExplainSchemaResponse { command: c, schema: x },
        ),
        _ => None,
    }
}

/// Decodes a `SUMMARIZE` response.
pub fn decode_summarize(v: JsonValue) -> (r: Option<SummarizeResponse>)
    ensures
        r == summarize_of(v),
{
    let keys = vec!["command", "summary"];
    proof {
        reveal_strlit("command");
        reveal_strlit("summary");
        assert(keys@.len() == 2);
        assert(keys@[0]@[0] != keys@[1]@[0]);
    }
    let mut f = match object_fields(v, &keys) {
        Some(f) => f,
        None => { return None; },
    };
    let x = f.pop();
    let c = f.pop();
    match (c, x) {
        (Some(Some(JsonValue::String(c))), Some(Some(x))) => Some(
            SummarizeResponse { command: c, summary: x },
        ),
        _ => None,
    }
}

/// Decodes an `EXPLAIN` response.
pub fn decode_explain(v: JsonValue) -> (r: Option<ExplainResponse>)
    ensures
        r == explain_of(v),
{
    let keys = vec!["command", "input", "expanded_query"];
    proof {
        reveal_strlit("command");
        reveal_strlit("input");
        reveal_strlit("expanded_query");
        assert(keys@.len() == 3);
        assert(keys@[0]@.len() != keys@[1]@.len());
        assert(keys@[0]@.len() != keys@[2]@.len());
        assert(keys@[1]@.len() != keys@[2]@.len());
    }
    let mut f = match object_fields(v, &keys) {
        Some(f) => f,
        None => { return None; },
    };
    let x = f.pop();
    let i = f.pop();
    let c = f.pop();
    match (c, i, x) {
        (Some(Some(JsonValue::String(c))), Some(Some(JsonValue::String(i))), Some(Some(x))) => Some(
            ExplainResponse { command: c, input: i, expanded_query: x },
        ),
        _ => None,
    }
}

/// Decodes a `QUERY` response.
pub fn decode_query(v: JsonValue) -> (r: Option<QueryResponse>)
    ensures
        r == query_of(v),
{
    let keys = vec!["command", "search_id", "trace_id", "results"];
    proof {
        reveal_strlit("command");
        reveal_strlit("search_id");
        reveal_strlit("trace_id");
        reveal_strlit("results");
        assert(keys@.len() == 4);
        assert(keys@[0]@.len() != keys@[1]@.len());
        assert(keys@[0]@.len() != keys@[2]@.len());
        assert(keys@[0]@[0] != keys@[3]@[0]);
        assert(keys@[1]@.len() != keys@[2]@.len());
        assert(keys@[1]@.len() != keys@[3]@.len());
        assert(keys@[2]@.len() != keys@[3]@.len());
    }
    let mut f = match object_fields(v, &keys) {
        Some(f) => f,
        None => { return None; },
    };
    let a = f.pop();
    let t = f.pop();
    let s = f.pop();
    let c = f.pop();
    match (c, s, t, a) {
        (
            Some(Some(JsonValue::String(c))),
            Some(Some(JsonValue::String(s))),
            Some(Some(JsonValue::String(t))),
            Some(Some(JsonValue::Array(a))),
        ) => Some(QueryResponse { command: c, search_id: s, trace_id: t, results: a }),
        _ => None,
    }
}

/// The strings of a list of JSON values, if every item is a string.
fn strings_of(values: Vec<JsonValue>) -> (r: Option<Vec<String>>)
    ensures
        r is Some <==> all_strings(values@),
        r matches Some(s) ==> s@.len() == values@.len() && forall|i: int|
            0 <= i < values@.len() ==> values@[i] == JsonValue::String(#[trigger] s@[i]),
{
    let ghost all = values@;
    let mut items = values;
    let mut out: Vec<String> = Vec::new();
    while items.len() > 0
        invariant
            all == values@,
            items@.len() + out@.len() == all.len(),
            items@ == all.subrange(0, items@.len() as int),
            forall|i: int|
                0 <= i < out@.len() ==> all[items@.len() + i] == JsonValue::String(
                    #[trigger] out@[i],
                ),
        decreases items@.len(),
    {
        let ghost m = items@.len() as int;
        let item = match items.pop() {
            Some(x) => x,
            None => { return None; },
        };
        assert(item == all[m - 1]);
        match item {
            JsonValue::String(s) => {
                let ghost prev = out@;
                out.insert(0, s);
                assert forall|i: int| 0 <= i < out@.len() implies all[m - 1 + i]
                    == JsonValue::String(#[trigger] out@[i]) by {
                    if i > 0 {
                        assert(out@[i] == prev[i - 1]);
                    }
                }
            },
            _ => {
                assert(!(all[m - 1] is String));
                assert(!all_strings(all));
                return None;
            },
        }
    }
    assert forall|i: int| 0 <= i < all.len() implies #[trigger] all[i] is String by {
        assert(all[i] == JsonValue::String(out@[i]));
    }
    Some(out)
}

/// Decodes an `EXPLAIN ATTRIBUTES` response.
pub fn decode_attributes(v: JsonValue) -> (r: Option<ExplainAttributesResponse>)
    ensures
        attributes_decoded(v, r),
{
    let keys = vec!["command", "attributes"];
    proof {
        reveal_strlit("command");
        reveal_strlit("attributes");
        assert(keys@.len() == 2);
        assert(keys@[0]@.len() != keys@[1]@.len());
    }
    let mut f = match object_fields(v, &keys) {
        Some(f) => f,
        None => { return None; },
    };
    let a = f.pop();
    let c = f.pop();
    match (c, a) {
        (Some(Some(JsonValue::String(c))), Some(Some(JsonValue::Array(a)))) => match strings_of(a) {
            Some(attributes) => Some(ExplainAttributesResponse { command: c, attributes }),
            None => None,
        },
        _ => None,
    }
}

/// `r` is the raw body `body`.
pub open spec fn is_raw(r: Decoded, body: Seq<char>) -> bool {
    r matches Decoded::Raw(t) && t@ == body
}

/// `r` is the decoding of `body` for a command of kind `kind`: the structured
/// response where the body is JSON that fits the kind's schema, and the body
/// itself otherwise. An invalid command has no schema.
pub open spec fn decoded(kind: CommandKind, body: Seq<char>, r: Decoded) -> bool {
    match json_parse(body) {
        None => is_raw(r, body),
        Some(v) => match kind {
            CommandKind::Query => match query_of(v) {
                Some(x) => r == Decoded::Query(x),
                None => is_raw(r, body),
            },
            CommandKind::Explain => match explain_of(v) {
                Some(x) => r == Decoded::Explain(x),
                None => is_raw(r, body),
            },
            CommandKind::ExplainVersion => match version_of(v) {
                Some(x) => r == Decoded::ExplainVersion(x),
                None => is_raw(r, body),
            },
            CommandKind::ExplainConnectors => match connectors_of(v) {
                Some(x) => r == Decoded::ExplainConnectors(x),
                None => is_raw(r, body),
            },
            CommandKind::ExplainAttributes => match r {
                Decoded::ExplainAttributes(x) => attributes_decoded(v, Some(x)),
                Decoded::Raw(t) => t@ == body && attributes_decoded(v, None),
                _ => false,
            },
            CommandKind::ExplainSchema => match schema_of(v) {
                Some(x) => r == Decoded::ExplainSchema(x),
                None => is_raw(r, body),
            },
            CommandKind::ExplainGraphql => match graphql_of(v) {
                Some(x) => r == Decoded::ExplainGraphql(x),
                None => is_raw(r, body),
            },
            CommandKind::Validate => match validate_of(v) {
                Some(x) => r == Decoded::Validate(x),
                None => is_raw(r, body),
            },
            CommandKind::Summarize => match summarize_of(v) {
                Some(x) => r == Decoded::Summarize(x),
                None => is_raw(r, body),
            },
            CommandKind::Invalid => is_raw(r, body),
        },
    }
}

/// Decodes a response body against the schema of the command that it
/// answers. A body that is not JSON, or does not fit, comes back unchanged
/// as `Decoded::Raw`.
pub fn decode(kind: CommandKind, body: &str) -> (r: Decoded)
    ensures
        decoded(kind, body@, r),
{
    let v = match parse_json(body) {
        Some(v) => v,
        None => { return Decoded::Raw(String::from_str(body)); },
    };
    let raw = String::from_str(body);
    match kind {
        CommandKind::Query => match decode_query(v) {
            Some(x) => Decoded::Query(x),
            None => Decoded::Raw(raw),
        },
        CommandKind::Explain => match decode_explain(v) {
            Some(x) => Decoded::Explain(x),
            None => Decoded::Raw(raw),
        },
        CommandKind::ExplainVersion => match decode_version(v) {
            Some(x) => Decoded::ExplainVersion(x),
            None => Decoded::Raw(raw),
        },
        CommandKind::ExplainConnectors => match decode_connectors(v) {
            Some(x) => Decoded::ExplainConnectors(x),
            None => Decoded::Raw(raw),
        },
        CommandKind::ExplainAttributes => match decode_attributes(v) {
            Some(x) => Decoded::ExplainAttributes(x),
            None => Decoded::Raw(raw),
        },
        CommandKind::ExplainSchema => match decode_schema(v) {
            Some(x) => Decoded::ExplainSchema(x),
            None => Decoded::Raw(raw),
        },
        CommandKind::ExplainGraphql => match decode_graphql(v) {
            Some(x) => Decoded::ExplainGraphql(x),
            None => Decoded::Raw(raw),
        },
        CommandKind::Validate => match decode_validate(v) {
            Some(x) => Decoded::Validate(x),
            None => Decoded::Raw(raw),
        },
        CommandKind::Summarize => match decode_summarize(v) {
            Some(x) => Decoded::Summarize(x),
            None => Decoded::Raw(raw),
        },
        CommandKind::Invalid => Decoded::Raw(raw),
    }
}

/// A `VALIDATE` body that is valid JSON but has no `is_valid` member is not
/// decoded: the body itself is what comes back.
pub proof fn lemma_validate_without_flag_is_raw(body: Seq<char>, r: Decoded)
    requires
        decoded(CommandKind::Validate, body, r),
        json_parse(body) is Some,
        members(json_parse(body)->0) matches Some(e) ==> field(e, "is_valid"@) is None,
    ensures
        is_raw(r, body),
{
}

/// Decoding never loses the body: whatever is not decoded is the body
/// unchanged.
pub proof fn lemma_decode_structured_or_body(kind: CommandKind, body: Seq<char>, r: Decoded)
    requires
        decoded(kind, body, r),
    ensures
        r is Raw ==> is_raw(r, body),
        json_parse(body) is None ==> is_raw(r, body),
        kind == CommandKind::Invalid ==> is_raw(r, body),
{
}

} // verus!
