use vstd::prelude::*;

use crate::model::{Article, NewsSource, NewsSourceView};
use crate::registry::{SourceConfig, MAX_RESPONSE_SIZE_BYTES};

verus! {

/// A single HTTP header.
pub struct HttpHeader {
    pub name: String,
    pub value: String,
}

/// The HTTP methods an outbound request can use.
#[derive(PartialEq, Eq, Structural)]
pub enum HttpMethod {
    Get,
    Post,
    Head,
}

/// An outbound feed request, as handed to the transport.
pub struct NewsRequest {
    pub url: String,
    pub method: HttpMethod,
    pub headers: Vec<HttpHeader>,
    pub body: Option<Vec<u8>>,
    pub max_response_bytes: Option<u64>,
    /// Whether the transport runs `transform_response` on the raw reply.
    pub strip_headers: bool,
}

/// Value of the `User-Agent` header sent with every feed request.
pub open spec fn user_agent() -> Seq<char> {
    "news-aggregator-backend-canister"@
}

/// Builds the GET request for one feed: one identifying header, no body, a
/// capped response size, and the header-stripping transform.
pub fn build_news_request(url: &str) -> (r: NewsRequest)
    ensures
        r.url@ == url@,
        r.method == HttpMethod::Get,
        r.headers@.len() == 1,
        r.headers@[0].name@ == "User-Agent"@,
        r.headers@[0].value@ == user_agent(),
        r.body is None,
        r.max_response_bytes == Some(MAX_RESPONSE_SIZE_BYTES),
        r.strip_headers,
{
    let mut headers: Vec<HttpHeader> = Vec::new();
    headers.push(
        HttpHeader {
            name: "User-Agent".to_string(),
            value: "news-aggregator-backend-canister".to_string(),
        },
    );
    NewsRequest {
        url: url.to_string(),
        method: HttpMethod::Get,
        headers,
        body: None,
        max_response_bytes: Some(MAX_RESPONSE_SIZE_BYTES),
        strip_headers: true,
    }
}

/// A raw HTTP reply from a feed source.
pub struct HttpResponse {
    pub status: candid::Nat,
    pub headers: Vec<HttpHeader>,
    pub body: Vec<u8>,
}

/// Drops every header of a reply, keeping its status and body.
pub fn transform_response(raw: HttpResponse) -> (r: HttpResponse)
    ensures
        r.status == raw.status,
        r.body@ == raw.body@,
        r.headers@.len() == 0,
{
    HttpResponse { status: raw.status, headers: Vec::new(), body: raw.body }
}

/// The coarse classification of a rejected outbound call.
#[derive(PartialEq, Eq, Structural)]
pub enum RejectionCode {
    NoError,
    SysFatal,
    SysTransient,
    DestinationInvalid,
    CanisterReject,
    CanisterError,
    Unknown,
}

pub open spec fn rejection_name(c: RejectionCode) -> Seq<char> {
    match c {
        RejectionCode::NoError => "NoError"@,
        RejectionCode::SysFatal => "SysFatal"@,
        RejectionCode::SysTransient => "SysTransient"@,
        RejectionCode::DestinationInvalid => "DestinationInvalid"@,
        RejectionCode::CanisterReject => "CanisterReject"@,
        RejectionCode::CanisterError => "CanisterError"@,
        RejectionCode::Unknown => "Unknown"@,
    }
}

impl RejectionCode {
    /// The name of the classification, as it appears in error messages.
    pub fn name(&self) -> (r: String)
        ensures
            r@ == rejection_name(*self),
    {
        match self {
            RejectionCode::NoError => "NoError".to_string(),
            RejectionCode::SysFatal => "SysFatal".to_string(),
            RejectionCode::SysTransient => "SysTransient".to_string(),
            RejectionCode::DestinationInvalid => "DestinationInvalid".to_string(),
            RejectionCode::CanisterReject => "CanisterReject".to_string(),
            RejectionCode::CanisterError => "CanisterError".to_string(),
            RejectionCode::Unknown => "Unknown".to_string(),
        }
    }
}

/// A failed outbound call: its classification and the transport's message.
pub struct TransportError {
    pub code: RejectionCode,
    pub message: String,
}

pub open spec fn transport_error_message(code: RejectionCode, message: Seq<char>) -> Seq<char> {
    "http_request finished with error. RejectionCode="@ + rejection_name(code) + ", Error="@
        + message
}

/// The entry of a source whose outbound call failed.
pub open spec fn transport_failure_view(
    title: Seq<char>,
    code: RejectionCode,
    message: Seq<char>,
) -> NewsSourceView {
    NewsSourceView {
        source_name: title,
        response_code: None,
        error_message: Some(transport_error_message(code, message)),
        news: Seq::empty(),
    }
}

/// Reports a source whose outbound call failed: no status, no articles, and a
/// message carrying the classification and the transport's own message.
pub fn transport_failure(source_config: &SourceConfig, error: TransportError) -> (r: NewsSource)
    ensures
        r@ == transport_failure_view(source_config.title@, error.code, error.message@),
{
    let mut message = "http_request finished with error. RejectionCode=".to_string();
    let name = error.code.name();
    message.append(name.as_str());
    message.append(", Error=");
    message.append(error.message.as_str());
    let news: Vec<Article> = Vec::new();
    let r = NewsSource {
        source_name: source_config.title.clone(),
        response_code: None,
        error_message: Some(message),
        news,
    };
    assert(r@.news =~= Seq::<crate::model::ArticleView>::empty());
    r
}

} // verus!
