use vstd::prelude::*;

verus! {

/// Whether `body` is a JSON document, as serde_json reads one.
pub uninterp spec fn json_text(body: Seq<char>) -> bool;

/// The integer that the JSON pointer `pointer` reaches in the document
/// `body`, if the document parses and the value there is an integer that
/// fits in `i64`.
pub uninterp spec fn json_int_at(body: Seq<char>, pointer: Seq<char>) -> Option<int>;

/// The string that the JSON pointer `pointer` reaches in the document `body`,
/// if the document parses and the value there is a string.
pub uninterp spec fn json_str_at(body: Seq<char>, pointer: Seq<char>) -> Option<Seq<char>>;

/// Relies on serde_json::from_str into serde_json::Value: whether `body`
/// parses as JSON.
#[verifier::external_body]
pub(crate) fn parses_as_json(body: &str) -> (r: bool)
    ensures
        r == json_text(body@),
{
    serde_json::from_str::<serde_json::Value>(body).is_ok()
}

/// Relies on serde_json::from_str into serde_json::Value, then
/// Value::pointer and Value::as_i64: the integer at `pointer`.
#[verifier::external_body]
pub(crate) fn int_at(body: &str, pointer: &str) -> (r: Option<i64>)
    ensures
        match r {
            Some(n) => json_int_at(body@, pointer@) == Some(n as int),
            None => json_int_at(body@, pointer@) is None,
        },
{
    match serde_json::from_str::<serde_json::Value>(body) {
        Ok(v) => v.pointer(pointer).and_then(serde_json::Value::as_i64),
        Err(_) => None,
    }
}

/// Relies on serde_json::from_str into serde_json::Value, then
/// Value::pointer and Value::as_str: the string at `pointer`.
#[verifier::external_body]
pub(crate) fn str_at(body: &str, pointer: &str) -> (r: Option<String>)
    ensures
        match r {
            Some(s) => json_str_at(body@, pointer@) == Some(s@),
            None => json_str_at(body@, pointer@) is None,
        },
{
    match serde_json::from_str::<serde_json::Value>(body) {
        Ok(v) => v.pointer(pointer).and_then(serde_json::Value::as_str).map(str::to_string),
        Err(_) => None,
    }
}

} // verus!
