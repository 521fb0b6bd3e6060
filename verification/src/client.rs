//! The analysis-client core: credential checking, request
//! preparation for the fixed remote endpoint, and classification of
//! the response the host hands back.
//!
//! The host performs the one network call; everything before it and
//! after it is decided here, and a response is handled exactly the
//! same whatever the transport did.

use vstd::prelude::*;
use vstd::string::StrSliceExecFns;
use vstd::string::StringExecFns;
use crate::extract::extract_text;
use crate::extract::spec_extract;
use crate::json::doc_to_text;
use crate::json::json_escape;
use crate::json::json_escaped;
use crate::json::json_parse;
use crate::json::json_text_of;
use crate::numbers::dec_i64;
use crate::numbers::dec_int;
use crate::prompt::build_prompt;
use crate::prompt::spec_prompt;
use crate::prompt::spec_truncated_log;
use crate::prompt::truncate_log;
use crate::text::prefix_chars;
use crate::text::take_prefix;
use crate::text::trim_str;
use crate::text::trimmed;

verus! {

/// Why an analysis failed: a blank credential, a transport failure,
/// a non-success status (with the status and at most the first 500
/// characters of the body), an unparseable body (with the parser's
/// detail and at most the first 200 characters of the body), or a
/// parsed document of no known shape (serialized back in full).
#[derive(Debug)]
pub enum AnalysisError {
    MissingCredential,
    RequestFailed(String),
    HttpError(u16, String),
    MalformedResponse(String, String),
    UnexpectedShape(String),
}

/// The description of an analysis error, as the host shows it.
pub open spec fn spec_analysis_message(e: AnalysisError) -> Seq<char> {
    match e {
        AnalysisError::MissingCredential => "API key is missing"@,
        AnalysisError::RequestFailed(d) => "request failed: "@ + d@,
        AnalysisError::HttpError(s, p) => "HTTP "@ + dec_int(s as int) + ": "@ + p@,
        AnalysisError::MalformedResponse(d, p) => "JSON parse failed: "@ + d@
            + "; raw response: "@ + p@,
        AnalysisError::UnexpectedShape(doc) => "Unexpected response: "@ + doc@,
    }
}

impl AnalysisError {
    /// Renders the error as a descriptive string.
    pub fn message(&self) -> (r: String)
        ensures
            r@ == spec_analysis_message(*self),
    {
        match self {
            AnalysisError::MissingCredential => String::from_str("API key is missing"),
            AnalysisError::RequestFailed(d) => {
                let mut out = String::from_str("request failed: ");
                out.append(d.as_str());
                out
            },
            AnalysisError::HttpError(s, p) => {
                let mut out = String::from_str("HTTP ");
                let num = dec_i64(*s as i64);
                out.append(num.as_str());
                out.append(": ");
                out.append(p.as_str());
                out
            },
            AnalysisError::MalformedResponse(d, p) => {
                let mut out = String::from_str("JSON parse failed: ");
                out.append(d.as_str());
                out.append("; raw response: ");
                out.append(p.as_str());
                out
            },
            AnalysisError::UnexpectedShape(doc) => {
                let mut out = String::from_str("Unexpected response: ");
                out.append(doc.as_str());
                out
            },
        }
    }
}

/// The fixed JSON request body up to the escaped prompt text: the
/// fixed model identifier, the fixed output-token budget, and the
/// opening of the single user message.
pub open spec fn body_head() -> Seq<char> {
    "{\"model\":\"MiniMax-M2.5-highspeed\",\"max_tokens\":2048,\"messages\":[{\"role\":\"user\",\"content\":\""@
}

/// The fixed closing of the JSON request body.
pub open spec fn body_tail() -> Seq<char> {
    "\"}]}"@
}

/// The JSON request body carrying `prompt` as the one user message.
pub open spec fn spec_request_body(prompt: Seq<char>) -> Seq<char> {
    body_head() + json_escaped(prompt) + body_tail()
}

/// Builds the JSON request body carrying `prompt` as the single user
/// message, with the prompt escaped for its string literal.
pub fn build_request_body(prompt: &str) -> (r: String)
    ensures
        r@ == spec_request_body(prompt@),
{
    let mut out = String::from_str(
        "{\"model\":\"MiniMax-M2.5-highspeed\",\"max_tokens\":2048,\"messages\":[{\"role\":\"user\",\"content\":\"",
    );
    let esc = json_escape(prompt);
    out.append(esc.as_str());
    out.append("\"}]}");
    out
}

/// The fixed remote analysis endpoint.
pub fn endpoint_url() -> (r: String)
    ensures
        r@ == "https://api.minimaxi.com/anthropic/v1/messages"@,
{
    String::from_str("https://api.minimaxi.com/anthropic/v1/messages")
}

/// The fixed protocol-version header value sent with each request.
pub fn protocol_version() -> (r: String)
    ensures
        r@ == "2023-06-01"@,
{
    String::from_str("2023-06-01")
}

/// The bearer-auth header value for a credential.
pub fn bearer_value(api_key: &str) -> (r: String)
    ensures
        r@ == "Bearer "@ + api_key@,
{
    let mut out = String::from_str("Bearer ");
    out.append(api_key);
    out
}

/// An outgoing analysis request, ready for the host to send: the
/// trimmed credential and the full JSON body.
pub struct PreparedRequest {
    pub api_key: String,
    pub body: String,
}

/// Checks the credential and prepares the analysis request: fails
/// with `MissingCredential` exactly when the key is blank after
/// trimming; otherwise yields the trimmed key and the request body
/// built from the prompt over the truncated log. No request is
/// prepared — so none can be sent — without a credential.
pub fn prepare_request(logs: &str, job_name: &str, api_key: &str) -> (r: Result<
    PreparedRequest,
    AnalysisError,
>)
    ensures
        trimmed(api_key@).len() == 0 <==> r matches Err(AnalysisError::MissingCredential),
        r matches Err(e) ==> e matches AnalysisError::MissingCredential,
        trimmed(api_key@).len() > 0 ==> (r matches Ok(req) && req.api_key@ == trimmed(api_key@)
            && req.body@ == spec_request_body(spec_prompt(job_name@, spec_truncated_log(logs@)))),
{
    let key = trim_str(api_key);
    if key.as_str().unicode_len() == 0 {
        return Err(AnalysisError::MissingCredential);
    }
    let truncated = truncate_log(logs);
    let prompt = build_prompt(job_name, truncated.as_str());
    let body = build_request_body(prompt.as_str());
    Ok(PreparedRequest { api_key: key, body })
}

/// What handling a response body must yield: the extracted answer
/// when the body parses to a known shape; `UnexpectedShape` with the
/// reserialized document when it parses to no known shape; and
/// `MalformedResponse` with the parser's detail and a bounded body
/// prefix when it does not parse.
pub open spec fn extraction_outcome(body: Seq<char>, r: Result<String, AnalysisError>) -> bool {
    match json_parse(body) {
        Ok(doc) => match spec_extract(doc) {
            Some(t) => r matches Ok(s) && s@ == t,
            None => r matches Err(AnalysisError::UnexpectedShape(s)) && s@ == json_text_of(doc),
        },
        Err(detail) => r matches Err(AnalysisError::MalformedResponse(d, p)) && d@ == detail && p@
            == prefix_chars(body, 200),
    }
}

/// Parses a response body and extracts the diagnosis text from it,
/// trying the three known provider shapes in priority order.
pub fn extract_diagnosis(body: &str) -> (r: Result<String, AnalysisError>)
    ensures
        extraction_outcome(body@, r),
{
    match crate::json::parse_json(body) {
        Ok(doc) => match extract_text(&doc) {
            Some(s) => Ok(s),
            None => Err(AnalysisError::UnexpectedShape(doc_to_text(&doc))),
        },
        Err(e) => {
            let p = take_prefix(body, 200);
            Err(AnalysisError::MalformedResponse(e, p))
        },
    }
}

/// Whether an HTTP status code reports success.
pub open spec fn status_success(status: u16) -> bool {
    200 <= status < 300
}

/// Classifies the response the host hands back: a non-success status
/// fails with `HttpError` carrying the status and at most the first
/// 500 characters of the body; a success status hands the body to
/// extraction.
pub fn handle_response(status: u16, body: &str) -> (r: Result<String, AnalysisError>)
    ensures
        !status_success(status) ==> (r matches Err(AnalysisError::HttpError(s, p)) && s == status
            && p@ == prefix_chars(body@, 500)),
        status_success(status) ==> extraction_outcome(body@, r),
{
    if status < 200 || status >= 300 {
        let p = take_prefix(body, 500);
        return Err(AnalysisError::HttpError(status, p));
    }
    extract_diagnosis(body)
}

} // verus!
