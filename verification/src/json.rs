//! The library's model of a JSON value.
//!
//! Parameters and results of remote calls are JSON values. The library
//! only moves them around and builds a few of them itself, so a number
//! is carried as the opaque `serde_json::Number` it came in as.

use vstd::prelude::*;

verus! {

/// Opaque JSON number, carried through unchanged.
#[verifier::external_type_specification]
#[verifier::external_body]
pub struct ExJsonNumber(serde_json::Number);

/// A JSON value: the same six shapes as `serde_json::Value`, with the
/// members of an object kept as a list of key/value pairs in key order.
#[derive(Debug, PartialEq)]
pub enum JsonValue {
    Null,
    Bool(bool),
    Number(serde_json::Number),
    String(String),
    Array(Vec<JsonValue>),
    Object(Vec<(String, JsonValue)>),
}

/// Opaque parsed JSON document of `serde_json`.
#[verifier::external_type_specification]
#[verifier::external_body]
pub struct ExSerdeJsonValue(serde_json::Value);

/// The JSON value that the text `text` holds, as `serde_json` parses it,
/// or `None` when the text is not a JSON document.
pub uninterp spec fn json_of(text: Seq<char>) -> Option<JsonValue>;

/// Whether `c` may stand as itself inside a JSON string: it is not a
/// quote, a backslash or a control character.
pub open spec fn is_plain_string_char(c: char) -> bool {
    c != '"' && c != '\\' && (c as u32) >= 0x20
}

/// Whether `t` is a JSON integer of at most 19 digits: an optional minus
/// sign, then decimal digits with no leading zero.
pub open spec fn is_short_integer_text(t: Seq<char>) -> bool {
    let d = integer_digits(t);
    &&& 1 <= d.len() <= 19
    &&& forall|k: int| 0 <= k < d.len() ==> is_decimal_digit(#[trigger] d[k])
    &&& d.len() > 1 ==> d[0] != '0'
}

/// The digits of an integer text: the text without its minus sign.
pub open spec fn integer_digits(t: Seq<char>) -> Seq<char> {
    if t.len() > 0 && t[0] == '-' {
        t.drop_first()
    } else {
        t
    }
}

/// Whether `c` is one of the digits `0` to `9`.
pub open spec fn is_decimal_digit(c: char) -> bool {
    0x30 <= c as u32 <= 0x39
}

/// Whether `t` is the JSON text of `v` written in one of the simplest
/// ways: `null`, `true`, `false`, a string in quotes with no escapes, or
/// a short integer for a number.
pub open spec fn is_simple_json_text(t: Seq<char>, v: JsonValue) -> bool {
    match v {
        JsonValue::Null => t == seq!['n', 'u', 'l', 'l'],
        JsonValue::Bool(b) => if b {
            t == seq!['t', 'r', 'u', 'e']
        } else {
            t == seq!['f', 'a', 'l', 's', 'e']
        },
        JsonValue::String(s) => {
            &&& t == seq!['"'] + s@ + seq!['"']
            &&& forall|k: int| 0 <= k < s@.len() ==> is_plain_string_char(#[trigger] s@[k])
        },
        JsonValue::Number(_) => is_short_integer_text(t),
        _ => false,
    }
}

/// Whether `t` is the JSON text of some value in one of the simplest ways.
pub open spec fn is_simple_json(t: Seq<char>) -> bool {
    exists|v: JsonValue| is_simple_json_text(t, v)
}

/// Calls `serde_json::from_str::<serde_json::Value>` on `text` and gives
/// the parsed value in the library's model, or `None` when parsing
/// fails. The result is named by [`json_of`]. Beside the name it states
/// what serde_json's parser (`Deserializer::deserialize_any` with
/// `parse_ident`, `parse_str`, `parse_integer`) gives for the simplest
/// texts: empty text does not parse; `null`, `true`, `false` and a
/// string in quotes with no escapes or control characters parse to that
/// value; a short integer parses to a number.
#[verifier::external_body]
pub(crate) fn parse_json(text: &str) -> (r: Option<JsonValue>)
    ensures
        r == json_of(text@),
        text@.len() == 0 ==> r == None::<JsonValue>,
        is_simple_json(text@) ==> r.is_some() && is_simple_json_text(text@, r.unwrap()),
{
    serde_json::from_str::<serde_json::Value>(text).ok().map(from_serde_value)
}

/// The library's model of a parsed `serde_json::Value`: the same
/// variant, with the same contents, converted element by element.
#[verifier::external_body]
fn from_serde_value(v: serde_json::Value) -> JsonValue {
    match v {
        serde_json::Value::Null => JsonValue::Null,
        serde_json::Value::Bool(b) => JsonValue::Bool(b),
        serde_json::Value::Number(n) => JsonValue::Number(n),
        serde_json::Value::String(s) => JsonValue::String(s),
        serde_json::Value::Array(a) => JsonValue::Array(a.into_iter().map(from_serde_value).collect()),
        serde_json::Value::Object(m) => JsonValue::Object(
            m.into_iter().map(|(k, v)| (k, from_serde_value(v))).collect(),
        ),
    }
}

proof fn lemma_simple_text_first_char(t: Seq<char>, v: JsonValue)
    requires
        is_simple_json_text(t, v),
    ensures
        t.len() > 0,
        v is Null ==> t[0] == 'n',
        v == JsonValue::Bool(true) ==> t[0] == 't',
        v == JsonValue::Bool(false) ==> t[0] == 'f',
        v is String ==> t[0] == '"',
        v is Number ==> t[0] == '-' || 0x30 <= t[0] as u32 <= 0x39,
{
    match v {
        JsonValue::Number(_) => {
            let d = integer_digits(t);
            assert(is_decimal_digit(d[0]));
        },
        JsonValue::String(x) => {
            assert((seq!['"'] + x@ + seq!['"'])[0] == '"');
        },
        _ => {},
    }
}

/// The simplest JSON texts of two values are the same only when the
/// values are: both `null`, the same boolean, strings with the same
/// text, or both numbers.
pub proof fn lemma_simple_json_text_unique(t: Seq<char>, v: JsonValue, w: JsonValue)
    requires
        is_simple_json_text(t, v),
        is_simple_json_text(t, w),
    ensures
        v is Null <==> w is Null,
        v is Number <==> w is Number,
        v matches JsonValue::Bool(b) ==> w == JsonValue::Bool(b),
        v matches JsonValue::String(x) ==> (w matches JsonValue::String(y) && y@ == x@),
{
    lemma_simple_text_first_char(t, v);
    lemma_simple_text_first_char(t, w);
    if let JsonValue::String(x) = v {
        if let JsonValue::String(y) = w {
            assert(x@ =~= t.subrange(1, t.len() - 1));
            assert(y@ =~= t.subrange(1, t.len() - 1));
        }
    }
    if let JsonValue::Bool(b) = v {
        if let JsonValue::Bool(c) = w {
            assert(b == c);
        }
    }
}

} // verus!
