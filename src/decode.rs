use vstd::prelude::*;
use crate::error::{ErrorView, WazuhError};
use crate::http::{is_success, is_success_status, RawResponse, ResponseView};
use crate::json::{int_at, json_int_at, json_str_at, json_text, parses_as_json, str_at};
use crate::text::{opt_int, opt_text};

verus! {

/// The API error that a failed response carries: the envelope's `error` and
/// `message` when the body is JSON that holds both (and the code fits in
/// `i32`), else the HTTP status and the raw body.
pub open spec fn envelope_error(
    status: u16,
    body: Seq<char>,
    json: bool,
    code: Option<int>,
    message: Option<Seq<char>>,
) -> ErrorView {
    if json && code is Some && message is Some && i32::MIN <= code.unwrap() <= i32::MAX {
        ErrorView::Api { code: code.unwrap(), message: message.unwrap() }
    } else {
        ErrorView::Api { code: status as int, message: body }
    }
}

/// The API error of a failed response.
pub open spec fn api_error_of(r: ResponseView) -> ErrorView {
    envelope_error(
        r.status,
        r.body,
        json_text(r.body),
        json_int_at(r.body, "/error"@),
        json_str_at(r.body, "/message"@),
    )
}

/// What decoding a response gives: its body on a 2xx status, else its API
/// error.
pub open spec fn decoded(r: ResponseView) -> Result<Seq<char>, ErrorView> {
    if is_success_status(r.status) {
        Ok(r.body)
    } else {
        Err(api_error_of(r))
    }
}

/// A failed response whose body is a JSON error envelope decodes to the API
/// error with the envelope's code and message.
pub proof fn lemma_envelope_error_kept(r: ResponseView, code: int, message: Seq<char>)
    requires
        !is_success_status(r.status),
        json_text(r.body),
        json_int_at(r.body, "/error"@) == Some(code),
        json_str_at(r.body, "/message"@) == Some(message),
        i32::MIN <= code <= i32::MAX,
    ensures
        decoded(r) == Err::<Seq<char>, ErrorView>(ErrorView::Api { code, message }),
{
}

/// A failed response whose body is not JSON decodes to the API error with
/// the HTTP status as code and the raw body as message.
pub proof fn lemma_plain_body_kept(r: ResponseView)
    requires
        !is_success_status(r.status),
        !json_text(r.body),
    ensures
        decoded(r) == Err::<Seq<char>, ErrorView>(ErrorView::Api { code: r.status as int, message: r.body }),
{
}

/// The view of a text result.
pub open spec fn text_result(res: Result<String, WazuhError>) -> Result<Seq<char>, ErrorView> {
    match res {
        Ok(s) => Ok(s@),
        Err(e) => Err(e@),
    }
}

/// Builds the API error of a failed response from what was read of its body:
/// whether it is JSON, and the envelope's `error` and `message` fields.
pub fn error_from_envelope_parts(
    status: u16,
    body: String,
    json: bool,
    code: Option<i64>,
    message: Option<String>,
) -> (r: WazuhError)
    ensures
        r@ == envelope_error(status, body@, json, opt_int(code), opt_text(message)),
{
    if json {
        match (code, message) {
            (Some(c), Some(m)) => {
                if i32::MIN as i64 <= c && c <= i32::MAX as i64 {
                    return WazuhError::ApiError { code: c as i32, message: m };
                }
            },
            _ => {},
        }
    }
    WazuhError::ApiError { code: status as i32, message: body }
}

/// The API error of a failed response: the error envelope when the body
/// holds one, else one made from the status and the raw body.
pub fn error_from_response(r: RawResponse) -> (e: WazuhError)
    ensures
        e@ == api_error_of(r@),
{
    let json = parses_as_json(r.body.as_str());
    let (code, message) = if json {
        (int_at(r.body.as_str(), "/error"), str_at(r.body.as_str(), "/message"))
    } else {
        (None, None)
    };
    proof {
        if json {
            assert(opt_int(code) == json_int_at(r.body@, "/error"@));
            assert(opt_text(message) == json_str_at(r.body@, "/message"@));
        }
    }
    error_from_envelope_parts(r.status, r.body, json, code, message)
}

/// Decodes a response: its body text on a 2xx status, else the API error it
/// carries.
pub fn decode(r: RawResponse) -> (res: Result<String, WazuhError>)
    ensures
        text_result(res) == decoded(r@),
{
    if is_success(r.status) {
        Ok(r.body)
    } else {
        Err(error_from_response(r))
    }
}

/// The error for a 2xx body that does not have the shape the caller asked
/// for; it quotes the body.
pub fn body_shape_error(body: &str) -> (e: WazuhError)
    ensures
        e@ == ErrorView::Serialization("Failed to parse response: "@ + body@),
{
    let mut m = String::from_str("Failed to parse response: ");
    m.append(body);
    WazuhError::SerializationError(m)
}

} // verus!
