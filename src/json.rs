//! JSON values as the library sees them, read and written through serde_json.

use vstd::prelude::*;

use crate::text::chars_of;

verus! {

#[verifier::external_type_specification]
#[verifier::external_body]
pub struct ExNumber(serde_json::Number);

#[verifier::external_type_specification]
#[verifier::external_body]
pub struct ExValue(serde_json::Value);

/// A JSON value. Object members keep the order in which serde_json hands
/// them out.
#[derive(Debug, PartialEq)]
pub enum JsonValue {
    Null,
    Bool(bool),
    Number(serde_json::Number),
    String(String),
    Array(Vec<JsonValue>),
    Object(Vec<(String, JsonValue)>),
}

/// The value that a JSON text denotes, or `None` where it is not JSON.
pub uninterp spec fn json_parse(s: Seq<char>) -> Option<JsonValue>;

/// The indented JSON text of a value.
pub uninterp spec fn json_pretty(v: JsonValue) -> Seq<char>;

/// Converts a serde_json value into a `JsonValue`, variant for variant.
#[verifier::external_body]
fn from_serde(v: serde_json::Value) -> JsonValue {
    match v {
        serde_json::Value::Null => JsonValue::Null,
        serde_json::Value::Bool(b) => JsonValue::Bool(b),
        serde_json::Value::Number(n) => JsonValue::Number(n),
        serde_json::Value::String(s) => JsonValue::String(s),
        serde_json::Value::Array(a) => JsonValue::Array(a.into_iter().map(from_serde).collect()),
        serde_json::Value::Object(m) => JsonValue::Object(
            m.into_iter().map(|(k, x)| (k, from_serde(x))).collect(),
        ),
    }
}

/// Converts a `JsonValue` into a serde_json value, variant for variant.
#[verifier::external_body]
fn to_serde(v: &JsonValue) -> serde_json::Value {
    match v {
        JsonValue::Null => serde_json::Value::Null,
        JsonValue::Bool(b) => serde_json::Value::Bool(*b),
        JsonValue::Number(n) => serde_json::Value::Number(n.clone()),
        JsonValue::String(s) => serde_json::Value::String(s.clone()),
        JsonValue::Array(a) => serde_json::Value::Array(a.iter().map(to_serde).collect()),
        JsonValue::Object(m) => serde_json::Value::Object(
            m.iter().map(|(k, x)| (k.clone(), to_serde(x))).collect(),
        ),
    }
}

/// Relies on `serde_json::from_str::<serde_json::Value>`: the result depends
/// on the text alone.
#[verifier::external_body]
pub fn parse_json(s: &str) -> (r: Option<JsonValue>)
    ensures
        r == json_parse(s@),
{
    serde_json::from_str::<serde_json::Value>(s).ok().map(from_serde)
}

/// Relies on `serde_json::to_string_pretty` of a `serde_json::Value`: the
/// text depends on the value alone, and writing a value (whose map keys are
/// strings) into memory does not fail.
#[verifier::external_body]
pub fn pretty_json(v: &JsonValue) -> (r: String)
    ensures
        r@ == json_pretty(*v),
{
    serde_json::to_string_pretty(&to_serde(v)).unwrap_or_default()
}

/// The value of the first member of `entries` named `key`.
pub open spec fn field(entries: Seq<(String, JsonValue)>, key: Seq<char>) -> Option<JsonValue>
    decreases entries.len(),
{
    if entries.len() == 0 {
        None
    } else if entries[0].0@ == key {
        Some(entries[0].1)
    } else {
        field(entries.drop_first(), key)
    }
}

proof fn lemma_field_step(entries: Seq<(String, JsonValue)>, m: int, key: Seq<char>)
    requires
        0 < m <= entries.len(),
    ensures
        field(entries.subrange(m - 1, entries.len() as int), key) == if entries[m - 1].0@
            == key {
            Some(entries[m - 1].1)
        } else {
            field(entries.subrange(m, entries.len() as int), key)
        },
{
    let s = entries.subrange(m - 1, entries.len() as int);
    assert(s.drop_first() =~= entries.subrange(m, entries.len() as int));
}

/// Whether `a` and `b` hold the same text.
pub fn same_text(a: &str, b: &str) -> (r: bool)
    ensures
        r == (a@ == b@),
{
    let x = chars_of(a);
    let y = chars_of(b);
    if x.len() != y.len() {
        return false;
    }
    let mut i: usize = 0;
    while i < x.len()
        invariant
            x@ == a@,
            y@ == b@,
            x@.len() == y@.len(),
            i <= x@.len(),
            forall|j: int| 0 <= j < i ==> x@[j] == y@[j],
        decreases x@.len() - i,
    {
        if x[i] != y[i] {
            assert(x@[i as int] != y@[i as int]);
            return false;
        }
        i = i + 1;
    }
    assert(x@ =~= y@);
    true
}

pub open spec fn keys_distinct(keys: Seq<&str>) -> bool {
    forall|a: int, b: int| 0 <= a < b < keys.len() ==> keys[a]@ != keys[b]@
}

/// Takes apart an object's members: for each key, the value of the first
/// member of that name.
pub fn take_fields(entries: Vec<(String, JsonValue)>, keys: &Vec<&str>) -> (r: Vec<
    Option<JsonValue>,
>)
    requires
        keys_distinct(keys@),
    ensures
        r@.len() == keys@.len(),
        forall|i: int| 0 <= i < keys@.len() ==> r@[i] == field(entries@, keys@[i]@),
{
    let ghost all = entries@;
    let mut entries = entries;
    let mut r: Vec<Option<JsonValue>> = Vec::new();
    let mut j: usize = 0;
    while j < keys.len()
        invariant
            j <= keys@.len(),
            r@.len() == j,
            entries@ == all,
            keys_distinct(keys@),
            forall|i: int| 0 <= i < j ==> r@[i] == None::<JsonValue>,
        decreases keys@.len() - j,
    {
        r.push(None);
        j = j + 1;
    }
    assert(all.subrange(all.len() as int, all.len() as int) =~= Seq::<(String, JsonValue)>::empty());
    while entries.len() > 0
        invariant
            r@.len() == keys@.len(),
            entries@.len() <= all.len(),
            entries@ == all.subrange(0, entries@.len() as int),
            keys_distinct(keys@),
            forall|i: int|
                0 <= i < keys@.len() ==> r@[i] == field(
                    all.subrange(entries@.len() as int, all.len() as int),
                    keys@[i]@,
                ),
        decreases entries@.len(),
    {
        let ghost m = entries@.len() as int;
        let ghost prev = r@;
        let (k, v) = match entries.pop() {
            Some(e) => e,
            None => { return r; },
        };
        assert(k == all[m - 1].0 && v == all[m - 1].1);
        proof {
            assert forall|i: int| 0 <= i < keys@.len() implies field(
                all.subrange(m - 1, all.len() as int),
                keys@[i]@,
            ) == if all[m - 1].0@ == keys@[i]@ {
                Some(all[m - 1].1)
            } else {
                prev[i]
            } by {
                lemma_field_step(all, m, keys@[i]@);
            }
        }
        let mut v = Some(v);
        let mut i: usize = 0;
        while i < keys.len()
            invariant
                i <= keys@.len(),
                0 < m <= all.len(),
                k == all[m - 1].0,
                r@.len() == keys@.len(),
                v is Some ==> v == Some(all[m - 1].1),
                forall|t: int|
                    0 <= t < i ==> r@[t] == if all[m - 1].0@ == keys@[t]@ {
                        Some(all[m - 1].1)
                    } else {
                        prev[t]
                    },
                forall|t: int| i <= t < keys@.len() ==> r@[t] == prev[t],
                v is None ==> forall|t: int| i <= t < keys@.len() ==> all[m - 1].0@ != keys@[t]@,
                keys_distinct(keys@),
            decreases keys@.len() - i,
        {
            if same_text(k.as_str(), keys[i]) {
                let taken = match v {
                    Some(x) => {
                        v = None;
                        x
                    },
                    None => {
                        assert(false);
                        JsonValue::Null
                    },
                };
                r.set(i, Some(taken));
                assert forall|t: int| i < t < keys@.len() implies all[m - 1].0@ != keys@[t]@ by {
                    assert(keys@[i as int]@ != keys@[t]@);
                }
            }
            i = i + 1;
        }
    }
    assert(all.subrange(0, all.len() as int) =~= all);
    r
}

} // verus!
