use vstd::prelude::*;
use vstd::utf8::{decode_utf8, valid_utf8};

use crate::fetch::{transport_failure, transport_failure_view, HttpResponse, TransportError};
use crate::model::{articles_view, Article, ArticleView, NewsSource, NewsSourceView};
use crate::registry::SourceConfig;

verus! {

/// The `Debug` rendering of the error that `String::from_utf8` reports for
/// the given bytes.
pub uninterp spec fn utf8_error_text(bytes: Seq<u8>) -> Seq<char>;

/// Relies on `String::from_utf8`: it succeeds exactly on valid UTF-8, and the
/// text then holds the decoded characters. The error, which records the bytes
/// and where decoding stopped, is rendered with its `Debug` form.
#[verifier::external_body]
fn decode_utf8_body(body: Vec<u8>) -> (r: Result<String, String>)
    ensures
        r is Ok <==> valid_utf8(body@),
        r matches Ok(s) ==> s@ == decode_utf8(body@),
        r matches Err(t) ==> t@ == utf8_error_text(body@),
{
    match String::from_utf8(body) {
        Ok(s) => Ok(s),
        Err(e) => Err(format!("{:?}", e)),
    }
}

pub open spec fn decode_error_prefix() -> Seq<char> {
    "Failed to decode response body. Error="@
}

pub open spec fn parse_error_prefix() -> Seq<char> {
    "Failed to parse XML response body. Error="@
}

/// The entry of a source that answered with a body that is not UTF-8: the
/// status is kept, the message describes the decoding failure.
pub open spec fn decode_failure_view(
    title: Seq<char>,
    status: candid::Nat,
    detail: Seq<char>,
) -> NewsSourceView {
    NewsSourceView {
        source_name: title,
        response_code: Some(status),
        error_message: Some(decode_error_prefix() + detail),
        news: Seq::empty(),
    }
}

/// The entry of a source whose text is not a feed of the expected shape.
pub open spec fn malformed_feed_view(
    title: Seq<char>,
    status: candid::Nat,
    detail: Seq<char>,
) -> NewsSourceView {
    NewsSourceView {
        source_name: title,
        response_code: Some(status),
        error_message: Some(parse_error_prefix() + detail),
        news: Seq::empty(),
    }
}

/// At most `limit` items, taken from the front.
pub open spec fn first_n<A>(items: Seq<A>, limit: nat) -> Seq<A> {
    if items.len() <= limit {
        items
    } else {
        items.take(limit as int)
    }
}

/// The entry of a source whose feed was read: its first `limit` items.
pub open spec fn parsed_feed_view(
    title: Seq<char>,
    status: candid::Nat,
    limit: nat,
    items: Seq<ArticleView>,
) -> NewsSourceView {
    NewsSourceView {
        source_name: title,
        response_code: Some(status),
        error_message: None,
        news: first_n(items, limit),
    }
}

/// What is left to do for a source once its outbound call has returned.
pub enum FeedStage {
    /// The entry is final.
    Done(NewsSource),
    /// The body decoded to `text`, which is still to be read as a feed.
    ParseXml { status: candid::Nat, text: String },
}

/// Takes the outcome of a source's outbound call. A failed call, or a body
/// that is not UTF-8, finishes the entry; otherwise the decoded text is handed
/// on to be read as a feed.
pub fn get_news_source(
    source_config: &SourceConfig,
    reply: Result<HttpResponse, TransportError>,
) -> (r: FeedStage)
    ensures
        match reply {
            Err(e) => r matches FeedStage::Done(n) && n@ == transport_failure_view(
                source_config.title@,
                e.code,
                e.message@,
            ),
            Ok(resp) => if valid_utf8(resp.body@) {
                r matches FeedStage::ParseXml { status, text } && status == resp.status && text@
                    == decode_utf8(resp.body@)
            } else {
                r matches FeedStage::Done(n) && n@ == decode_failure_view(
                    source_config.title@,
                    resp.status,
                    utf8_error_text(resp.body@),
                )
            },
        },
{
    match reply {
        Err(e) => FeedStage::Done(transport_failure(source_config, e)),
        Ok(resp) => {
            let status = resp.status;
            match decode_utf8_body(resp.body) {
                Ok(text) => FeedStage::ParseXml { status, text },
                Err(detail) => {
                    let mut message = "Failed to decode response body. Error=".to_string();
                    message.append(detail.as_str());
                    let news: Vec<Article> = Vec::new();
                    let n = NewsSource {
                        source_name: source_config.title.clone(),
                        response_code: Some(status),
                        error_message: Some(message),
                        news,
                    };
                    assert(n@ == decode_failure_view(source_config.title@, status, detail@)) by {
                        assert(n@.news =~= Seq::<ArticleView>::empty());
                    }
                    FeedStage::Done(n)
                },
            }
        },
    }
}

/// Builds a source's entry from the reading of its feed text: on success the
/// first `news_per_source` items in feed order, on failure no articles and a
/// message built from the reader's error text.
pub fn parse_xml_http_response(
    source_config: &SourceConfig,
    news_per_source: usize,
    status: candid::Nat,
    feed: Result<Vec<Article>, String>,
) -> (r: NewsSource)
    ensures
        r@ == match feed {
            Ok(items) => parsed_feed_view(
                source_config.title@,
                status,
                news_per_source as nat,
                articles_view(items@),
            ),
            Err(detail) => malformed_feed_view(source_config.title@, status, detail@),
        },
        feed matches Ok(items) ==> r.news@ == first_n(items@, news_per_source as nat),
{
    match feed {
        Ok(items) => {
            let ghost all = items@;
            let mut news = items;
            news.truncate(news_per_source);
            let r = NewsSource {
                source_name: source_config.title.clone(),
                response_code: Some(status),
                error_message: None,
                news,
            };
            assert(r@.news =~= first_n(articles_view(all), news_per_source as nat));
            assert(r.news@ =~= first_n(all, news_per_source as nat));
            r
        },
        Err(detail) => {
            let mut message = "Failed to parse XML response body. Error=".to_string();
            message.append(detail.as_str());
            let news: Vec<Article> = Vec::new();
            let r = NewsSource {
                source_name: source_config.title.clone(),
                response_code: Some(status),
                error_message: Some(message),
                news,
            };
            assert(r@.news =~= Seq::<ArticleView>::empty());
            r
        },
    }
}

} // verus!
