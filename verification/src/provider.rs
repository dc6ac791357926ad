//! Credential acquisition: the compute half of the client-credentials
//! exchange with the authorization endpoint. Building the token-request URL
//! and parsing the endpoint's response live here; the network round trip
//! itself is left to the caller, which hands the raw status and body back.

use vstd::prelude::*;
use vstd::string::{StrSliceExecFns, StringExecFns};

use crate::error::Error;
use crate::token::{sat_add_i64, Token};

verus! {

/// Longest token-response body, in characters, that is handed to the JSON
/// decoder. The decoder recurses once per nesting level, so a body of
/// unbounded length could exhaust the stack; a longer success response is
/// rejected as undecodable without being parsed. A real token response is
/// a two-field object, far below this bound.
pub const MAX_TOKEN_BODY_LEN: usize = 65536;

/// The query part appended to the authorization base URL, up to the
/// project key.
pub open spec fn spec_token_path() -> Seq<char> {
    "/oauth/token?grant_type=client_credentials&scope=manage_project:"@
}

/// The full URL of the token request for a project:
/// `{auth_url}/oauth/token?grant_type=client_credentials&scope=manage_project:{project_key}`.
pub open spec fn spec_auth_token_url(auth_url: Seq<char>, project_key: Seq<char>) -> Seq<char> {
    auth_url + spec_token_path() + project_key
}

/// Builds the URL the token request is POSTed to.
pub fn auth_token_url(auth_url: &str, project_key: &str) -> (r: String)
    ensures
        r@ == spec_auth_token_url(auth_url@, project_key@),
{
    let mut url = String::from_str(auth_url);
    url.append("/oauth/token?grant_type=client_credentials&scope=manage_project:");
    url.append(project_key);
    url
}

/// The `access_token` and `expires_in` fields that decoding a token
/// response body yields, or `None` where the body does not carry both in
/// the expected shape. Applied by the clause of [`decode_token_fields`].
pub uninterp spec fn token_fields_of(body: Seq<char>) -> Option<(Seq<char>, i64)>;

/// Relies on rustc_serialize's `json::Json`: `from_str` parses the body
/// into a JSON value (a pure function of the characters), `find` looks a
/// key up in a parsed object, and `as_string` / `as_i64` read the value as
/// a string or as a 64-bit integer. Yields the body's `access_token` and
/// `expires_in` fields, or `None` where the body is not a JSON object
/// carrying a string and an integer under those keys. The parser recurses
/// once per nesting level and nesting is bounded by the body's length, so
/// the length bound keeps the call within the stack.
#[verifier::external_body]
fn decode_token_fields(body: &str) -> (r: Option<(String, i64)>)
    requires
        body@.len() <= MAX_TOKEN_BODY_LEN,
    ensures
        match r {
            Some(p) => token_fields_of(body@) == Some((p.0@, p.1)),
            None => token_fields_of(body@) is None,
        },
{
    let json = rustc_serialize::json::Json::from_str(body).ok()?;
    let tok = json.find("access_token")?.as_string()?.to_owned();
    let exp = json.find("expires_in")?.as_i64()?;
    Some((tok, exp))
}

/// Classifies an authorization-endpoint response and, on success, decodes
/// the token fields. Exactly one of three outcomes, driven by the status
/// and the body alone: a non-success status is an `UnexpectedStatusError`
/// carrying the raw response; a success status whose body is longer than
/// [`MAX_TOKEN_BODY_LEN`] or does not decode is a `DecodeError`; otherwise
/// the `(access_token, expires_in)` pair.
pub fn parse_token_response(status: u16, body: &str) -> (r: Result<(String, i64), Error>)
    ensures
        status == 200 && body@.len() <= MAX_TOKEN_BODY_LEN && token_fields_of(body@) is Some
            ==> r is Ok && r->Ok_0.0@ == token_fields_of(body@)->Some_0.0
            && r->Ok_0.1 == token_fields_of(body@)->Some_0.1,
        status == 200 && body@.len() <= MAX_TOKEN_BODY_LEN && token_fields_of(body@) is None
            ==> r is Err && r->Err_0 is DecodeError && r->Err_0->DecodeError_0@ == body@,
        status == 200 && body@.len() > MAX_TOKEN_BODY_LEN ==> r is Err
            && r->Err_0 is DecodeError && r->Err_0->DecodeError_0@ == body@,
        status != 200 ==> r is Err && r->Err_0 is UnexpectedStatusError
            && r->Err_0->UnexpectedStatusError_0 == status
            && r->Err_0->UnexpectedStatusError_1@ == body@,
{
    if status != 200 {
        return Err(Error::UnexpectedStatusError(status, String::from_str(body)));
    }
    if body.unicode_len() > MAX_TOKEN_BODY_LEN {
        return Err(Error::DecodeError(String::from_str(body)));
    }
    match decode_token_fields(body) {
        Some((tok, exp)) => Ok((tok, exp)),
        None => Err(Error::DecodeError(String::from_str(body))),
    }
}

/// Turns an authorization-endpoint response into a token, expiring
/// `expires_in` seconds after the instant `now_s`: the compute half of a
/// token retrieval, once the network round trip has produced a status and
/// a body.
pub fn token_from_response(status: u16, body: &str, now_s: i64) -> (r: Result<Token, Error>)
    ensures
        status == 200 && body@.len() <= MAX_TOKEN_BODY_LEN && token_fields_of(body@) is Some
            ==> r is Ok && r->Ok_0@.access_token == token_fields_of(body@)->Some_0.0
            && r->Ok_0@.expires_at == sat_add_i64(
            now_s as int,
            token_fields_of(body@)->Some_0.1 as int,
        ),
        status == 200 && body@.len() <= MAX_TOKEN_BODY_LEN && token_fields_of(body@) is None
            ==> r is Err && r->Err_0 is DecodeError && r->Err_0->DecodeError_0@ == body@,
        status == 200 && body@.len() > MAX_TOKEN_BODY_LEN ==> r is Err
            && r->Err_0 is DecodeError && r->Err_0->DecodeError_0@ == body@,
        status != 200 ==> r is Err && r->Err_0 is UnexpectedStatusError
            && r->Err_0->UnexpectedStatusError_0 == status
            && r->Err_0->UnexpectedStatusError_1@ == body@,
{
    match parse_token_response(status, body) {
        Ok((tok, exp)) => Ok(Token::with_now(tok.as_str(), exp, now_s)),
        Err(e) => Err(e),
    }
}

} // verus!
