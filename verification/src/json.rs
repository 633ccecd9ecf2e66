//! The JSON value model that the converter works on, and the trusted
//! bridge that obtains such a value from raw JSON text.

use vstd::prelude::*;
use vstd::string::StringExecFns;

verus! {

/// A JSON value, reduced to what the delta format reads.
///
/// A number carries `Some(n)` when the value is representable as a
/// `u64` and `None` otherwise (negative or fractional numbers) — the
/// delta format only ever reads non-negative integer attributes — and,
/// beside that, its rendered text for diagnostics.  Objects are held
/// as a list of key/value entries in the order the parser hands them
/// out.
pub enum JsonValue {
    Null,
    Bool(bool),
    Num(Option<u64>, String),
    Str(String),
    Arr(Vec<JsonValue>),
    Obj(Vec<(String, JsonValue)>),
}

/// The value of the first entry of `entries` whose key reads `key`,
/// if there is one.
pub open spec fn lookup_spec(entries: Seq<(String, JsonValue)>, key: Seq<char>) -> Option<
    JsonValue,
>
    decreases entries.len(),
{
    if entries.len() == 0 {
        None
    } else if entries[0].0@ == key {
        Some(entries[0].1)
    } else {
        lookup_spec(entries.drop_first(), key)
    }
}

#[verifier::external_type_specification]
#[verifier::external_body]
pub struct ExValue(serde_json::Value);

/// The parse of a JSON text: `Some` with the model of the resulting
/// tree when the text is well-formed JSON, `None` when it is not.
/// Parsing depends on the text alone.
pub uninterp spec fn json_of(s: Seq<char>) -> Option<JsonValue>;

/// The parser's diagnostic for a malformed JSON text.  Like the parse
/// itself, it depends on the text alone.
pub uninterp spec fn json_err_of(s: Seq<char>) -> Seq<char>;

/// The model of a parsed `serde_json::Value`: the same tree, variant by
/// variant, with each number reduced to its `u64` reading.  It depends
/// on the value alone.
pub uninterp spec fn serde_model(v: serde_json::Value) -> JsonValue;

/// Relies on serde_json::from_str: a well-formed text parses to the
/// tree that `json_of` names, a malformed one is rejected with the
/// diagnostic that `json_err_of` names, and both depend on the text
/// alone.
#[verifier::external_body]
fn from_str_value(s: &str) -> (r: Result<serde_json::Value, String>)
    ensures
        match r {
            Ok(v) => json_of(s@) == Some(serde_model(v)),
            Err(e) => json_of(s@) is None && e@ == json_err_of(s@),
        },
{
    serde_json::from_str::<serde_json::Value>(s).map_err(|e| e.to_string())
}

/// Relies on serde_json's `Value` enum, `Number::as_u64` and the
/// number's rendering: each variant is carried over one for one,
/// numbers via their `u64` reading and their text, so the result is
/// the value's model.
#[verifier::external_body]
fn value_from_serde(v: serde_json::Value) -> (r: JsonValue)
    ensures
        r == serde_model(v),
{
    match v {
        serde_json::Value::Null => JsonValue::Null,
        serde_json::Value::Bool(b) => JsonValue::Bool(b),
        serde_json::Value::Number(n) => JsonValue::Num(n.as_u64(), n.to_string()),
        serde_json::Value::String(s) => JsonValue::Str(s),
        serde_json::Value::Array(a) => JsonValue::Arr(
            a.into_iter().map(value_from_serde).collect(),
        ),
        serde_json::Value::Object(m) => JsonValue::Obj(
            m.into_iter().map(|(k, x)| (k, value_from_serde(x))).collect(),
        ),
    }
}

/// Parses a JSON text into the library's value model, or reports the
/// underlying parser's diagnostic on malformed text.
pub fn parse_json(s: &str) -> (r: Result<JsonValue, String>)
    ensures
        match r {
            Ok(v) => json_of(s@) == Some(v),
            Err(e) => json_of(s@) is None && e@ == json_err_of(s@),
        },
{
    match from_str_value(s) {
        Ok(v) => Ok(value_from_serde(v)),
        Err(e) => Err(e),
    }
}

/// Relies on str's `PartialEq`: two string slices are equal exactly when
/// their character sequences are.
#[verifier::external_body]
fn str_eq(a: &str, b: &str) -> (r: bool)
    ensures
        r == (a@ == b@),
{
    a == b
}

/// Finds the entry of `entries` named `key`, as `lookup_spec` describes.
pub fn lookup<'a>(entries: &'a Vec<(String, JsonValue)>, key: &str) -> (r: Option<
    &'a JsonValue,
>)
    ensures
        match r {
            Some(v) => lookup_spec(entries@, key@) == Some(*v),
            None => lookup_spec(entries@, key@) is None,
        },
{
    let n: usize = entries.len();
    let mut i: usize = 0;
    proof {
        assert(entries@.skip(0) =~= entries@);
    }
    while i < n
        invariant
            n == entries@.len(),
            0 <= i <= n,
            lookup_spec(entries@, key@) == lookup_spec(entries@.skip(i as int), key@),
        decreases n - i,
    {
        if str_eq(entries[i].0.as_str(), key) {
            proof {
                assert(entries@.skip(i as int)[0] == entries@[i as int]);
            }
            return Some(&entries[i].1);
        }
        proof {
            assert(entries@.skip(i as int).drop_first() =~= entries@.skip(i as int + 1));
        }
        i = i + 1;
    }
    proof {
        assert(entries@.skip(n as int) =~= Seq::<(String, JsonValue)>::empty());
    }
    None
}

/// The diagnostic rendering of a value: scalars in full (numbers by
/// the text the parser saw, strings between quotes), arrays and
/// objects abbreviated.
pub open spec fn describe_spec(v: JsonValue) -> Seq<char> {
    match v {
        JsonValue::Null => "null"@,
        JsonValue::Bool(b) => if b {
            "true"@
        } else {
            "false"@
        },
        JsonValue::Num(_, text) => text@,
        JsonValue::Str(s) => "\""@ + s@ + "\""@,
        JsonValue::Arr(_) => "[...]"@,
        JsonValue::Obj(_) => "{...}"@,
    }
}

/// Renders a value for diagnostic messages, as `describe_spec` says.
pub fn describe(v: &JsonValue) -> (r: String)
    ensures
        r@ == describe_spec(*v),
{
    match v {
        JsonValue::Null => String::from_str("null"),
        JsonValue::Bool(b) => if *b {
            String::from_str("true")
        } else {
            String::from_str("false")
        },
        JsonValue::Num(_, text) => text.clone(),
        JsonValue::Str(s) => {
            let mut out = String::from_str("\"");
            out.append(s.as_str());
            out.append("\"");
            out
        },
        JsonValue::Arr(_) => String::from_str("[...]"),
        JsonValue::Obj(_) => String::from_str("{...}"),
    }
}

} // verus!
