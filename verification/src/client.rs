//! The HTTP core: how every endpoint becomes a request (method, URL, bearer
//! key, headers, query, body), and how a response is classified.
//!
//! The library plans requests and judges responses; sending them is the
//! transport's job, which hands back the status code and the body text.

use vstd::prelude::*;
use std::sync::Arc;
use crate::error::RobinhoodChainError;
use crate::query::{QueryView, pairs_view};
use crate::text::{decimal, concat2, u64_to_text};
use crate::types::BatchAddressesRequest;

verus! {

/// Base URL of the MadeOnSol API.
pub const BASE_URL: &'static str = "https://madeonsol.com/api/v1";

/// HTTP method of a request.
#[derive(Debug, Clone, Copy, PartialEq, Eq, Structural)]
pub enum HttpMethod {
    Get,
    Post,
    Patch,
    Delete,
}

/// Where the caller's own params struct goes, serialized by the transport:
/// nowhere, into the query string, or as the JSON body.
#[derive(Debug, Clone, Copy, PartialEq, Eq, Structural)]
pub enum CallerParams {
    Absent,
    Query,
    JsonBody,
}

/// A JSON body the library builds itself.
#[derive(Debug, Clone)]
pub enum RequestBody {
    /// No body built here.
    Empty,
    /// `{"addresses": [...]}` for the batch endpoints.
    Addresses(BatchAddressesRequest),
    /// `{"label": ...}` (`null` clears the label) for a watchlist relabel.
    Label(Option<String>),
}

/// The body of a request as character sequences.
pub enum BodyView {
    Empty,
    Addresses(Seq<Seq<char>>),
    Label(Option<Seq<char>>),
}

/// A planned HTTP request.
#[derive(Debug, Clone)]
pub struct ApiRequest {
    pub method: HttpMethod,
    /// Absolute URL: the base URL followed by the endpoint path.
    pub url: String,
    /// Sent as `Authorization: Bearer <key>`.
    pub bearer_token: String,
    pub headers: Vec<(String, String)>,
    /// Query pairs the library computed from its own params types.
    pub query: Vec<(String, String)>,
    pub caller_params: CallerParams,
    pub body: RequestBody,
}

/// A planned request as character sequences.
pub struct RequestView {
    pub method: HttpMethod,
    pub url: Seq<char>,
    pub bearer_token: Seq<char>,
    pub headers: QueryView,
    pub query: QueryView,
    pub caller_params: CallerParams,
    pub body: BodyView,
}

impl View for RequestBody {
    type V = BodyView;

    open spec fn view(&self) -> BodyView {
        match self {
            RequestBody::Empty => BodyView::Empty,
            RequestBody::Addresses(b) => BodyView::Addresses(b.addresses@.map_values(|s: String| s@)),
            RequestBody::Label(l) => BodyView::Label(
                match l {
                    Some(s) => Some(s@),
                    None => None,
                },
            ),
        }
    }
}

impl View for ApiRequest {
    type V = RequestView;

    open spec fn view(&self) -> RequestView {
        RequestView {
            method: self.method,
            url: self.url@,
            bearer_token: self.bearer_token@,
            headers: pairs_view(self.headers@),
            query: pairs_view(self.query@),
            caller_params: self.caller_params,
            body: self.body@,
        }
    }
}

/// The headers every request carries: `Accept: application/json`.
pub open spec fn accept_json() -> QueryView {
    seq![("Accept"@, "application/json"@)]
}

/// The headers of a POST without a body: `Accept` and `Content-Type`, both JSON.
pub open spec fn accept_and_content_json() -> QueryView {
    seq![("Accept"@, "application/json"@), ("Content-Type"@, "application/json"@)]
}

/// Shared HTTP state of every namespace: the base URL and the API key.
#[derive(Debug, Clone)]
pub struct HttpCore {
    base_url: String,
    api_key: String,
}

fn header(name: &str, value: &str) -> (h: (String, String))
    ensures
        h.0@ == name@,
        h.1@ == value@,
{
    (name.to_owned(), value.to_owned())
}

fn accept_headers() -> (h: Vec<(String, String)>)
    ensures
        pairs_view(h@) == accept_json(),
{
    let mut h: Vec<(String, String)> = Vec::new();
    h.push(header("Accept", "application/json"));
    assert(pairs_view(h@) =~= accept_json());
    h
}

/// Trusted: `<Arc<HttpCore> as Clone>::clone`, which std documents as another
/// pointer to the same allocation, so the shared core is the same value.
#[verifier::external_body]
pub(crate) fn share_core(core: &Arc<HttpCore>) -> (r: Arc<HttpCore>)
    ensures
        r == *core,
{
    Arc::clone(core)
}

fn json_headers() -> (h: Vec<(String, String)>)
    ensures
        pairs_view(h@) == accept_and_content_json(),
{
    let mut h: Vec<(String, String)> = Vec::new();
    h.push(header("Accept", "application/json"));
    h.push(header("Content-Type", "application/json"));
    assert(pairs_view(h@) =~= accept_and_content_json());
    h
}

impl HttpCore {
    /// The base URL every request of this core goes under.
    pub closed spec fn spec_base_url(&self) -> Seq<char> {
        self.base_url@
    }

    /// The API key every request of this core carries.
    pub closed spec fn spec_api_key(&self) -> Seq<char> {
        self.api_key@
    }

    /// The view of a request to `path` under this core.
    pub open spec fn plan(
        self,
        method: HttpMethod,
        path: Seq<char>,
        headers: QueryView,
        query: QueryView,
        caller_params: CallerParams,
        body: BodyView,
    ) -> RequestView {
        RequestView {
            method,
            url: self.spec_base_url() + path,
            bearer_token: self.spec_api_key(),
            headers,
            query,
            caller_params,
            body,
        }
    }

    /// `GET <base><path>` with `query` and the caller's params placed as given.
    pub open spec fn get_plan(self, path: Seq<char>, query: QueryView, caller_params: CallerParams) -> RequestView {
        self.plan(HttpMethod::Get, path, accept_json(), query, caller_params, BodyView::Empty)
    }

    /// `POST <base><path>` with a JSON `body`.
    pub open spec fn post_plan(self, path: Seq<char>, body: BodyView, caller_params: CallerParams) -> RequestView {
        self.plan(HttpMethod::Post, path, accept_and_content_json(), Seq::empty(), caller_params, body)
    }

    /// `PATCH <base><path>` with a JSON `body`.
    pub open spec fn patch_plan(self, path: Seq<char>, body: BodyView, caller_params: CallerParams) -> RequestView {
        self.plan(HttpMethod::Patch, path, accept_and_content_json(), Seq::empty(), caller_params, body)
    }

    /// `POST <base><path>` with no body and a JSON content type.
    pub open spec fn post_empty_plan(self, path: Seq<char>) -> RequestView {
        self.plan(HttpMethod::Post, path, accept_and_content_json(), Seq::empty(), CallerParams::Absent, BodyView::Empty)
    }

    /// `DELETE <base><path>`.
    pub open spec fn delete_plan(self, path: Seq<char>) -> RequestView {
        self.plan(HttpMethod::Delete, path, accept_json(), Seq::empty(), CallerParams::Absent, BodyView::Empty)
    }

    /// A core for `api_key` against the production base URL.
    pub fn new(api_key: String) -> (c: Self)
        ensures
            c.spec_base_url() == BASE_URL@,
            c.spec_api_key() == api_key@,
    {
        HttpCore { base_url: BASE_URL.to_owned(), api_key }
    }

    fn plan_request(
        &self,
        method: HttpMethod,
        path: &str,
        headers: Vec<(String, String)>,
        query: Vec<(String, String)>,
        caller_params: CallerParams,
        body: RequestBody,
    ) -> (r: ApiRequest)
        ensures
            r@ == self.plan(method, path@, pairs_view(headers@), pairs_view(query@), caller_params, body@),
    {
        ApiRequest {
            method,
            url: concat2(self.base_url.as_str(), path),
            bearer_token: self.api_key.clone(),
            headers,
            query,
            caller_params,
            body,
        }
    }

    /// `GET <base><path>` with `query` (and the caller's params as query, if any).
    pub fn get(&self, path: &str, query: Vec<(String, String)>, caller_params: CallerParams) -> (r: ApiRequest)
        requires
            !(caller_params is JsonBody),
        ensures
            r@ == self.get_plan(path@, pairs_view(query@), caller_params),
    {
        self.plan_request(HttpMethod::Get, path, accept_headers(), query, caller_params, RequestBody::Empty)
    }

    /// `POST <base><path>` with a JSON body.
    pub fn post(&self, path: &str, body: RequestBody, caller_params: CallerParams) -> (r: ApiRequest)
        requires
            !(caller_params is Query),
        ensures
            r@ == self.post_plan(path@, body@, caller_params),
    {
        let q: Vec<(String, String)> = Vec::new();
        assert(pairs_view(q@) =~= Seq::empty());
        let r = self.plan_request(HttpMethod::Post, path, json_headers(), q, caller_params, body);
        r
    }

    /// `PATCH <base><path>` with a JSON body.
    pub fn patch(&self, path: &str, body: RequestBody, caller_params: CallerParams) -> (r: ApiRequest)
        requires
            !(caller_params is Query),
        ensures
            r@ == self.patch_plan(path@, body@, caller_params),
    {
        let q: Vec<(String, String)> = Vec::new();
        assert(pairs_view(q@) =~= Seq::empty());
        let r = self.plan_request(HttpMethod::Patch, path, json_headers(), q, caller_params, body);
        r
    }

    /// `POST <base><path>` without a body, declaring a JSON content type.
    pub fn post_empty(&self, path: &str) -> (r: ApiRequest)
        ensures
            r@ == self.post_empty_plan(path@),
    {
        let h = json_headers();
        let q: Vec<(String, String)> = Vec::new();
        assert(pairs_view(q@) =~= Seq::empty());
        let r = self.plan_request(HttpMethod::Post, path, h, q, CallerParams::Absent, RequestBody::Empty);
        r
    }

    /// `DELETE <base><path>`.
    pub fn delete(&self, path: &str) -> (r: ApiRequest)
        ensures
            r@ == self.delete_plan(path@),
    {
        let q: Vec<(String, String)> = Vec::new();
        assert(pairs_view(q@) =~= Seq::empty());
        let r = self.plan_request(HttpMethod::Delete, path, accept_headers(), q, CallerParams::Absent, RequestBody::Empty);
        r
    }
}


/// What serde_json finds under `key` in `text` parsed as JSON: `None` when the
/// text is not JSON, not an object, or has no such key; `Some(None)` when the
/// key holds something other than a string; `Some(Some(s))` for a string `s`.
pub uninterp spec fn json_member(text: Seq<char>, key: Seq<char>) -> Option<Option<Seq<char>>>;

/// The canonical reason phrase of an HTTP status code (`404` → `Not Found`),
/// as the `http` crate's table gives it; `None` for a code it does not list.
pub uninterp spec fn canonical_reason(code: u16) -> Option<Seq<char>>;

/// Trusted: `serde_json::from_str::<Value>` on `text`, then `Value::get(key)`
/// and `Value::as_str` on what it finds. The contract claims that the result
/// is `json_member(text, key)`, a function of the two texts, and that text
/// which does not parse has no members.
#[verifier::external_body]
fn json_string_member(text: &str, key: &str) -> (res: Option<Option<String>>)
    ensures
        json_parse(text@) is None ==> res is None,
        json_member(text@, key@) == match res {
            Some(Some(s)) => Some(Some(s@)),
            Some(None) => Some(None::<Seq<char>>),
            None => None::<Option<Seq<char>>>,
        },
{
    let value: serde_json::Value = match serde_json::from_str(text) {
        Ok(v) => v,
        Err(_) => return None,
    };
    match value.get(key) {
        Some(m) => Some(m.as_str().map(String::from)),
        None => None,
    }
}

/// serde_json's parse of `text` as one JSON document: `None` when the text is
/// not valid JSON.
pub uninterp spec fn json_parse(text: Seq<char>) -> Option<serde_json::Value>;

/// The JSON string value `Value::String` holding `text`.
pub uninterp spec fn json_string(text: Seq<char>) -> serde_json::Value;

/// Trusted: `serde_json::from_str::<Value>` on `text`, its error turned into
/// `None`. The contract claims that the result is `json_parse(text)`, a
/// function of the text.
#[verifier::external_body]
fn parse_json(text: &str) -> (res: Option<serde_json::Value>)
    ensures
        res == json_parse(text@),
{
    serde_json::from_str(text).ok()
}

/// Trusted: the `serde_json::Value::String` variant built from `text`. The
/// contract claims that the result is `json_string(text)`, a function of the
/// text.
#[verifier::external_body]
fn string_value(text: &str) -> (res: serde_json::Value)
    ensures
        res == json_string(text@),
{
    serde_json::Value::String(text.to_string())
}

/// Trusted: `reqwest::StatusCode::from_u16(code)` and its `canonical_reason`.
/// `from_u16` accepts exactly `100..=999`; the contract claims that the
/// phrase is `canonical_reason(code)`, a function of the code.
#[verifier::external_body]
fn status_reason(code: u16) -> (res: Option<&'static str>)
    requires
        100 <= code <= 999,
    ensures
        canonical_reason(code) == match res {
            Some(s) => Some(s@),
            None => None::<Seq<char>>,
        },
{
    match reqwest::StatusCode::from_u16(code) {
        Ok(s) => s.canonical_reason(),
        Err(_) => None,
    }
}

/// A status in `200..=299`.
pub open spec fn is_success(status: u16) -> bool {
    200 <= status < 300
}

/// Every status from 200 through 299, and no other, is a success.
pub proof fn lemma_success_is_2xx(status: u16)
    ensures
        is_success(status) <==> (200 <= status && status <= 299),
{
}

/// How a status code displays: the number, a space, and the reason phrase
/// (`<unknown status code>` when there is none).
pub open spec fn status_display(code: u16) -> Seq<char> {
    decimal(code as nat) + " "@ + match canonical_reason(code) {
        Some(r) => r,
        None => "<unknown status code>"@,
    }
}

/// The message chosen from the body's `error` and `message` members: the
/// `error` member when present, else the `message` member; the member must
/// hold a string, else (and when neither is present) `Request failed with
/// status <status>`.
pub open spec fn chosen_message(
    status: u16,
    error_member: Option<Option<Seq<char>>>,
    message_member: Option<Option<Seq<char>>>,
) -> Seq<char> {
    let fallback = "Request failed with status "@ + status_display(status);
    match error_member {
        Some(Some(m)) => m,
        Some(None) => fallback,
        None => match message_member {
            Some(Some(m)) => m,
            _ => fallback,
        },
    }
}

/// The message of a failed response whose body text is `body`.
pub open spec fn error_message(status: u16, body: Seq<char>) -> Seq<char> {
    chosen_message(status, json_member(body, "error"@), json_member(body, "message"@))
}

/// The body an `Api` error carries: the parsed JSON document, or the text as
/// a JSON string when it does not parse.
pub open spec fn error_body(body: Seq<char>) -> serde_json::Value {
    match json_parse(body) {
        Some(v) => v,
        None => json_string(body),
    }
}

/// The character view of a member lookup.
pub open spec fn member_view(m: Option<Option<String>>) -> Option<Option<Seq<char>>> {
    match m {
        Some(Some(s)) => Some(Some(s@)),
        Some(None) => Some(None),
        None => None,
    }
}

/// `Request failed with status <code> <reason>`.
fn fallback_message(status: u16) -> (m: String)
    requires
        100 <= status <= 999,
    ensures
        m@ == "Request failed with status "@ + status_display(status),
{
    let mut m = "Request failed with status ".to_owned();
    let digits = u64_to_text(status as u64);
    m.append(digits.as_str());
    m.append(" ");
    match status_reason(status) {
        Some(r) => m.append(r),
        None => m.append("<unknown status code>"),
    }
    m
}

/// Chooses the message of a failed response from what the body holds under
/// `error` and under `message` (`None`: no such member; `Some(None)`: a member
/// that is not a string).
pub fn failure_message(
    status: u16,
    error_member: Option<Option<String>>,
    message_member: Option<Option<String>>,
) -> (m: String)
    requires
        100 <= status <= 999,
    ensures
        m@ == chosen_message(status, member_view(error_member), member_view(message_member)),
{
    match error_member {
        Some(Some(e)) => e,
        Some(None) => fallback_message(status),
        None => match message_member {
            Some(Some(msg)) => msg,
            _ => fallback_message(status),
        },
    }
}

impl HttpCore {
    /// Judges a response by its status code and body text: `Ok(())` for a
    /// 2xx status (the body is then the payload to decode), otherwise the
    /// `Api` error with the status, the message the body gives and the
    /// parsed body.
    pub fn handle(status: u16, body_text: &str) -> (r: Result<(), RobinhoodChainError>)
        requires
            100 <= status <= 999,
        ensures
            r is Ok <==> is_success(status),
            (200 <= status && status <= 299) ==> r is Ok,
            (status < 200 || status > 299) ==> r is Err,
            r matches Err(e) ==> (e matches RobinhoodChainError::Api { status: s, message: m, .. }
                && s == status && m@ == error_message(status, body_text@)),
            r matches Err(e) ==> e.reported_status() == Some(status),
            r matches Err(e) ==> (e matches RobinhoodChainError::Api { body: b, .. }
                && b == error_body(body_text@)),
    {
        if 200 <= status && status < 300 {
            return Ok(());
        }
        let body = match parse_json(body_text) {
            Some(v) => v,
            None => string_value(body_text),
        };
        let error_member = json_string_member(body_text, "error");
        let message_member = json_string_member(body_text, "message");
        let message = failure_message(status, error_member, message_member);
        Err(RobinhoodChainError::Api { status, message, body })
    }
}

} // verus!
