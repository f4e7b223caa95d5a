//! The HTTP request that tests one model: which API it speaks, where it goes,
//! its headers and its JSON body, and the message for a refused request.
use vstd::prelude::*;

use crate::json::{json_string, json_string_literal};
use crate::model::ModelConfig;

verus! {

/// The streaming APIs that can be tested.
#[derive(Debug, Clone, Copy, PartialEq, Eq, Structural)]
pub enum ApiKind {
    OpenAi,
    Anthropic,
}

/// The API that an `api_type` setting names, if any.
pub open spec fn api_kind_of(api_type: Seq<char>) -> Option<ApiKind> {
    if api_type == "openai"@ {
        Some(ApiKind::OpenAi)
    } else if api_type == "anthropic"@ {
        Some(ApiKind::Anthropic)
    } else {
        None
    }
}

/// `s` without its trailing `'/'` characters.
pub open spec fn trim_end_slashes(s: Seq<char>) -> Seq<char>
    decreases s.len(),
{
    if s.len() > 0 && s.last() == '/' {
        trim_end_slashes(s.drop_last())
    } else {
        s
    }
}

/// The endpoint path that each API streams from.
pub open spec fn endpoint_path(api: ApiKind) -> Seq<char> {
    match api {
        ApiKind::OpenAi => "/chat/completions"@,
        ApiKind::Anthropic => "/v1/messages"@,
    }
}

/// The URL that a request for `api` goes to, below `base_url`.
pub open spec fn endpoint_url(api: ApiKind, base_url: Seq<char>) -> Seq<char> {
    trim_end_slashes(base_url) + endpoint_path(api)
}

/// The JSON body of a streaming request, around the JSON string literals of
/// the model's id and of the one user message; keys in serde_json's (sorted)
/// order.
pub open spec fn framed_body(api: ApiKind, id_literal: Seq<char>, prompt_literal: Seq<char>) -> Seq<char> {
    match api {
        ApiKind::OpenAi => "{\"max_tokens\":1000,\"messages\":[{\"content\":"@ + prompt_literal
            + ",\"role\":\"user\"}],\"model\":"@ + id_literal
            + ",\"stream\":true,\"stream_options\":{\"include_usage\":true}}"@,
        ApiKind::Anthropic => "{\"max_tokens\":1024,\"messages\":[{\"content\":"@ + prompt_literal
            + ",\"role\":\"user\"}],\"model\":"@ + id_literal + ",\"stream\":true}"@,
    }
}

/// The JSON body of a streaming request for `model_id` with one user message
/// `prompt`.
pub open spec fn request_body(api: ApiKind, model_id: Seq<char>, prompt: Seq<char>) -> Seq<char> {
    framed_body(api, json_string_literal(model_id), json_string_literal(prompt))
}

proof fn lemma_no_trailing_slash(s: Seq<char>)
    ensures
        trim_end_slashes(s).len() == 0 || trim_end_slashes(s).last() != '/',
        trim_end_slashes(s).len() <= s.len(),
    decreases s.len(),
{
    if s.len() > 0 && s.last() == '/' {
        lemma_no_trailing_slash(s.drop_last());
    }
}

/// However many slashes a base URL ends with, requests go to the same URL,
/// and the endpoint path follows the base without a doubled slash.
pub proof fn law_trailing_slash_ignored(api: ApiKind, base_url: Seq<char>)
    ensures
        endpoint_url(api, base_url.push('/')) == endpoint_url(api, base_url),
        trim_end_slashes(base_url).len() == 0 || trim_end_slashes(base_url).last() != '/',
{
    assert(base_url.push('/').drop_last() =~= base_url);
    lemma_no_trailing_slash(base_url);
}

/// The headers of a request for `api` authenticated by `api_key`.
pub open spec fn request_headers(api: ApiKind, api_key: Seq<char>) -> Seq<(Seq<char>, Seq<char>)> {
    match api {
        ApiKind::OpenAi => seq![
            ("Authorization"@, "Bearer "@ + api_key),
            ("Content-Type"@, "application/json"@),
        ],
        ApiKind::Anthropic => seq![
            ("x-api-key"@, api_key),
            ("anthropic-version"@, "2023-06-01"@),
            ("Content-Type"@, "application/json"@),
        ],
    }
}

/// The error that a model of an unknown API type is reported with.
pub open spec fn unknown_api_message() -> Seq<char> {
    "Unknown API type"@
}

/// A request ready to be sent: POST `body` to `url` with `headers`.
pub struct ApiRequest {
    pub api: ApiKind,
    pub url: String,
    pub headers: Vec<(String, String)>,
    pub body: String,
}

impl ApiRequest {
    /// The headers as character sequences.
    pub open spec fn headers_view(&self) -> Seq<(Seq<char>, Seq<char>)> {
        self.headers@.map_values(|h: (String, String)| (h.0@, h.1@))
    }

    /// This is the request that tests a model described by `model` with
    /// `prompt`, over `api`.
    pub open spec fn is_request_for(&self, api: ApiKind, model: crate::model::ModelConfigView, prompt: Seq<char>) -> bool {
        &&& self.api == api
        &&& self.url@ == endpoint_url(api, model.base_url)
        &&& self.headers_view() == request_headers(api, model.api_key)
        &&& self.body@ == request_body(api, model.id, prompt)
    }
}

/// The API that `api_type` names: `"openai"` or `"anthropic"`.
pub fn api_kind(api_type: &str) -> (r: Option<ApiKind>)
    ensures
        r == api_kind_of(api_type@),
{
    let t = String::from_str(api_type);
    if t == String::from_str("openai") {
        Some(ApiKind::OpenAi)
    } else if t == String::from_str("anthropic") {
        Some(ApiKind::Anthropic)
    } else {
        None
    }
}

/// `base_url` with its trailing slashes removed, as `trim_end_matches('/')`.
pub fn trim_trailing_slashes(base_url: &str) -> (r: String)
    ensures
        r@ == trim_end_slashes(base_url@),
{
    let n = base_url.unicode_len();
    let mut j: usize = n;
    assert(base_url@.subrange(0, n as int) =~= base_url@);
    while j > 0 && base_url.get_char(j - 1) == '/'
        invariant
            j <= n,
            n == base_url@.len(),
            trim_end_slashes(base_url@) == trim_end_slashes(base_url@.subrange(0, j as int)),
        decreases j,
    {
        assert(base_url@.subrange(0, j as int).drop_last() =~= base_url@.subrange(
            0,
            j - 1,
        ));
        j = j - 1;
    }
    String::from_str(base_url.substring_char(0, j))
}

/// The body of a request for `api`, given the JSON string literals of the
/// model's id and of the prompt.
pub fn frame_body(api: ApiKind, id_literal: &str, prompt_literal: &str) -> (r: String)
    ensures
        r@ == framed_body(api, id_literal@, prompt_literal@),
{
    match api {
        ApiKind::OpenAi => {
            let mut body = String::from_str("{\"max_tokens\":1000,\"messages\":[{\"content\":");
            body.append(prompt_literal);
            body.append(",\"role\":\"user\"}],\"model\":");
            body.append(id_literal);
            body.append(",\"stream\":true,\"stream_options\":{\"include_usage\":true}}");
            body
        },
        ApiKind::Anthropic => {
            let mut body = String::from_str("{\"max_tokens\":1024,\"messages\":[{\"content\":");
            body.append(prompt_literal);
            body.append(",\"role\":\"user\"}],\"model\":");
            body.append(id_literal);
            body.append(",\"stream\":true}");
            body
        },
    }
}

fn header(name: &str, value: &str) -> (r: (String, String))
    ensures
        r.0@ == name@,
        r.1@ == value@,
{
    (String::from_str(name), String::from_str(value))
}

/// The request that tests `model` with `prompt`; the error
/// "Unknown API type" when its API type is neither `openai` nor `anthropic`.
pub fn plan_request(model: &ModelConfig, prompt: &str) -> (r: Result<ApiRequest, String>)
    ensures
        match api_kind_of(model.api_type@) {
            Some(api) => r matches Ok(req) && req.is_request_for(api, model@, prompt@),
            None => r matches Err(e) && e@ == unknown_api_message(),
        },
{
    let api = match api_kind(model.api_type.as_str()) {
        Some(api) => api,
        None => return Err(String::from_str("Unknown API type")),
    };
    let mut url = trim_trailing_slashes(model.base_url.as_str());
    let mut headers: Vec<(String, String)> = Vec::new();
    let literal_prompt = json_string(prompt);
    let literal_id = json_string(model.id.as_str());
    match api {
        ApiKind::OpenAi => {
            url.append("/chat/completions");
            let mut bearer = String::from_str("Bearer ");
            bearer.append(model.api_key.as_str());
            headers.push((String::from_str("Authorization"), bearer));
            headers.push(header("Content-Type", "application/json"));
        },
        ApiKind::Anthropic => {
            url.append("/v1/messages");
            headers.push(header("x-api-key", model.api_key.as_str()));
            headers.push(header("anthropic-version", "2023-06-01"));
            headers.push(header("Content-Type", "application/json"));
        },
    }
    let body = frame_body(api, literal_id.as_str(), literal_prompt.as_str());
    let req = ApiRequest { api, url, headers, body };
    assert(req.headers_view() =~= request_headers(api, model.api_key@));
    Ok(req)
}

/// Whether an HTTP status code reports success (the 2xx range), as the HTTP
/// library's `StatusCode::is_success` decides.
pub fn status_is_success(code: u16) -> (r: bool)
    ensures
        r == (200 <= code < 300),
{
    200 <= code && code < 300
}

/// The message for a request that the server refused with `status` (as the
/// HTTP library displays it) and response body `body`.
pub open spec fn http_failure_text(status: Seq<char>, body: Seq<char>) -> Seq<char> {
    "HTTP "@ + status + " : "@ + body
}

/// The error message for a refused request.
pub fn http_failure_message(status: &str, body: &str) -> (r: String)
    ensures
        r@ == http_failure_text(status@, body@),
{
    let mut r = String::from_str("HTTP ");
    r.append(status);
    r.append(" : ");
    r.append(body);
    r
}

} // verus!
