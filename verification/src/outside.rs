//! Contracts for the few functions of other crates (and of std beyond what
//! vstd specifies) that the library calls. Everything else in the crate is
//! verified against these contracts.

use vstd::prelude::*;

verus! {

/// What `char::is_whitespace` returns: membership of the character in
/// Unicode's White_Space set, a fixed property of the character alone.
pub uninterp spec fn is_white(c: char) -> bool;

/// Relies on char::is_whitespace: a fixed predicate on the character.
pub assume_specification[ char::is_whitespace ](c: char) -> (r: bool)
    ensures
        r == is_white(c),
;

/// Relies on String::push: appends the character to the end of the string.
pub assume_specification[ String::push ](s: &mut String, c: char)
    ensures
        final(s)@ == old(s)@.push(c),
;

/// What `str::to_lowercase` returns: the Unicode lowercase form of the text,
/// a function of the characters alone.
pub uninterp spec fn lower_of(s: Seq<char>) -> Seq<char>;

/// Relies on str::to_lowercase: the result depends on the characters alone.
#[verifier::external_body]
pub fn to_lower(s: &str) -> (r: String)
    ensures
        r@ == lower_of(s@),
{
    s.to_lowercase()
}

#[verifier::external_type_specification]
#[verifier::external_body]
pub struct ExSerdeValue(serde_json::Value);

/// What parsing this text yields, in the library's value form: `None` when
/// the text is not JSON. serde_json's parsing is a function of the text
/// alone; stating it in full would take pages, so the result only carries
/// this name.
pub uninterp spec fn json_doc_of(s: Seq<char>) -> Option<crate::json::JsonValue>;

/// Relies on serde_json::from_str::<serde_json::Value>: parses JSON text,
/// failing exactly on text that is not JSON; the parsed tree is converted
/// node for node by `from_serde`.
#[verifier::external_body]
pub fn parse_json(s: &str) -> (r: Option<crate::json::JsonValue>)
    ensures
        r == json_doc_of(s@),
{
    match serde_json::from_str::<serde_json::Value>(s) {
        Ok(v) => Some(from_serde(&v)),
        Err(_) => None,
    }
}

/// Relies on serde_json::Value's variants: converts a parsed document one
/// node for one node. A number keeps its text through Number's Display
/// form; an object's fields arrive in serde_json's map order.
#[verifier::external_body]
fn from_serde(v: &serde_json::Value) -> crate::json::JsonValue {
    match v {
        serde_json::Value::Null => crate::json::JsonValue::Null,
        serde_json::Value::Bool(b) => crate::json::JsonValue::Bool(*b),
        serde_json::Value::Number(n) => crate::json::JsonValue::Num(n.to_string()),
        serde_json::Value::String(s) => crate::json::JsonValue::Text(s.clone()),
        serde_json::Value::Array(a) => crate::json::JsonValue::Arr(
            a.iter().map(from_serde).collect(),
        ),
        serde_json::Value::Object(m) => crate::json::JsonValue::Obj(
            m.iter().map(|(k, x)| (k.clone(), from_serde(x))).collect(),
        ),
    }
}

/// Relies on uuid::Uuid::new_v4 and its Display form: a fresh random
/// identifier in the canonical hyphenated form, always 36 characters. The
/// identifier is random: nothing else is assumed of it.
#[verifier::external_body]
pub fn fresh_event_uid() -> (r: String)
    ensures
        r@.len() == 36,
{
    uuid::Uuid::new_v4().to_string()
}

/// Relies on chrono::Utc::now and DateTime::to_rfc3339: the current UTC time
/// in RFC 3339 form. The clock decides the text: only non-emptiness is
/// assumed of it.
#[verifier::external_body]
pub fn now_rfc3339() -> (r: String)
    ensures
        r@.len() > 0,
{
    chrono::Utc::now().to_rfc3339()
}

} // verus!
