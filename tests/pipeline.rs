use candid::Nat;
use news_aggregator::aggregate::{fetch_aggregated_news, validate_news_per_source};
use news_aggregator::fetch::{
    build_news_request, transform_response, transport_failure, HttpHeader, HttpMethod,
    HttpResponse, RejectionCode, TransportError,
};
use news_aggregator::model::{Article, NewsSource};
use news_aggregator::parse::{get_news_source, parse_xml_http_response, FeedStage};
use news_aggregator::registry::{
    news_sources, SourceConfig, DEFAULT_NEWS_AMOUNT, MAX_RESPONSE_SIZE_BYTES,
};

fn article(n: usize) -> Article {
    Article {
        title: format!("title {n}"),
        description: format!("description {n}"),
        link: format!("https://example.com/{n}"),
    }
}

fn articles(k: usize) -> Vec<Article> {
    (0..k).map(article).collect()
}

fn source(i: usize) -> SourceConfig {
    news_sources().remove(i)
}

fn ok_entry(i: usize, k: usize) -> NewsSource {
    parse_xml_http_response(&source(i), 3, Nat::from(200u32), Ok(articles(k)))
}

fn failed_entry(i: usize) -> NewsSource {
    transport_failure(
        &source(i),
        TransportError { code: RejectionCode::SysTransient, message: "timeout".to_string() },
    )
}

#[test]
fn registry_lists_three_sources_in_order() {
    let sources = news_sources();
    let titles: Vec<&str> = sources.iter().map(|s| s.title.as_str()).collect();
    assert_eq!(titles, vec!["BBC News", "POLITICO", "The Guardian"]);
    assert_eq!(sources[0].url, "https://feeds.bbci.co.uk/news/rss.xml");
    assert_eq!(sources[1].url, "https://rss.politico.com/politics-news.xml");
    assert_eq!(sources[2].url, "https://www.theguardian.com/world/rss");
    assert_eq!(DEFAULT_NEWS_AMOUNT, 3);
    assert_eq!(MAX_RESPONSE_SIZE_BYTES, 262144);
}

#[test]
fn request_is_a_capped_get_with_user_agent() {
    let r = build_news_request("https://example.com/feed.xml");
    assert_eq!(r.url, "https://example.com/feed.xml");
    assert!(r.method == HttpMethod::Get);
    assert_eq!(r.headers.len(), 1);
    assert_eq!(r.headers[0].name, "User-Agent");
    assert_eq!(r.headers[0].value, "news-aggregator-backend-canister");
    assert!(r.body.is_none());
    assert_eq!(r.max_response_bytes, Some(262144));
    assert!(r.strip_headers);
}

#[test]
fn transform_drops_headers_and_keeps_status_and_body() {
    let raw = HttpResponse {
        status: Nat::from(200u32),
        headers: vec![HttpHeader { name: "Set-Cookie".to_string(), value: "x=1".to_string() }],
        body: b"<rss/>".to_vec(),
    };
    let r = transform_response(raw);
    assert!(r.headers.is_empty());
    assert_eq!(r.status, Nat::from(200u32));
    assert_eq!(r.body, b"<rss/>".to_vec());
}

#[test]
fn rejection_codes_are_named() {
    assert_eq!(RejectionCode::NoError.name(), "NoError");
    assert_eq!(RejectionCode::SysFatal.name(), "SysFatal");
    assert_eq!(RejectionCode::SysTransient.name(), "SysTransient");
    assert_eq!(RejectionCode::DestinationInvalid.name(), "DestinationInvalid");
    assert_eq!(RejectionCode::CanisterReject.name(), "CanisterReject");
    assert_eq!(RejectionCode::CanisterError.name(), "CanisterError");
    assert_eq!(RejectionCode::Unknown.name(), "Unknown");
}

#[test]
fn transport_failure_has_no_status_and_no_articles() {
    let r = failed_entry(1);
    assert_eq!(r.source_name, "POLITICO");
    assert!(r.response_code.is_none());
    assert_eq!(
        r.error_message.as_deref(),
        Some("http_request finished with error. RejectionCode=SysTransient, Error=timeout")
    );
    assert!(r.news.is_empty());
}

#[test]
fn failed_call_finishes_the_entry() {
    let reply = Err(TransportError {
        code: RejectionCode::DestinationInvalid,
        message: "no such host".to_string(),
    });
    match get_news_source(&source(0), reply) {
        FeedStage::Done(n) => {
            assert_eq!(n.source_name, "BBC News");
            assert!(n.response_code.is_none());
            assert_eq!(
                n.error_message.as_deref(),
                Some("http_request finished with error. RejectionCode=DestinationInvalid, Error=no such host")
            );
            assert!(n.news.is_empty());
        }
        FeedStage::ParseXml { .. } => panic!("a failed call has no text to read"),
    }
}

#[test]
fn utf8_body_is_handed_on_as_text() {
    let reply = Ok(HttpResponse {
        status: Nat::from(200u32),
        headers: vec![],
        body: "<rss><channel>é</channel></rss>".as_bytes().to_vec(),
    });
    match get_news_source(&source(2), reply) {
        FeedStage::ParseXml { status, text } => {
            assert_eq!(status, Nat::from(200u32));
            assert_eq!(text, "<rss><channel>é</channel></rss>");
        }
        FeedStage::Done(_) => panic!("a UTF-8 body is to be read as a feed"),
    }
}

#[test]
fn non_utf8_body_is_a_decode_failure_with_status() {
    let reply = Ok(HttpResponse { status: Nat::from(200u32), headers: vec![], body: vec![0x3c, 0xff, 0xfe] });
    match get_news_source(&source(2), reply) {
        FeedStage::Done(n) => {
            assert_eq!(n.source_name, "The Guardian");
            assert_eq!(n.response_code, Some(Nat::from(200u32)));
            let m = n.error_message.expect("decode failure carries a message");
            assert!(m.starts_with("Failed to decode response body. Error="));
            assert!(m.len() > "Failed to decode response body. Error=".len());
            assert!(n.news.is_empty());
        }
        FeedStage::ParseXml { .. } => panic!("invalid UTF-8 must not be read as a feed"),
    }
}

#[test]
fn feed_longer_than_limit_is_truncated_in_order() {
    let r = parse_xml_http_response(&source(0), 3, Nat::from(200u32), Ok(articles(5)));
    assert_eq!(r.source_name, "BBC News");
    assert_eq!(r.response_code, Some(Nat::from(200u32)));
    assert!(r.error_message.is_none());
    let titles: Vec<&str> = r.news.iter().map(|a| a.title.as_str()).collect();
    assert_eq!(titles, vec!["title 0", "title 1", "title 2"]);
    assert_eq!(r.news[1].description, "description 1");
    assert_eq!(r.news[2].link, "https://example.com/2");
}

#[test]
fn feed_shorter_than_limit_is_kept_whole() {
    let r = parse_xml_http_response(&source(1), 10, Nat::from(200u32), Ok(articles(2)));
    assert_eq!(r.news.len(), 2);
    assert_eq!(r.news[0].title, "title 0");
    assert_eq!(r.news[1].title, "title 1");
    assert!(r.error_message.is_none());
}

#[test]
fn empty_feed_is_a_success_with_no_articles() {
    let r = parse_xml_http_response(&source(1), 3, Nat::from(200u32), Ok(vec![]));
    assert!(r.news.is_empty());
    assert!(r.error_message.is_none());
    assert_eq!(r.response_code, Some(Nat::from(200u32)));
}

#[test]
fn limit_of_one_keeps_the_first_article() {
    let r = parse_xml_http_response(&source(1), 1, Nat::from(200u32), Ok(articles(4)));
    assert_eq!(r.news.len(), 1);
    assert_eq!(r.news[0].title, "title 0");
}

#[test]
fn malformed_feed_keeps_status_200_and_reports() {
    let r = parse_xml_http_response(
        &source(2),
        3,
        Nat::from(200u32),
        Err("missing field `channel`".to_string()),
    );
    assert_eq!(r.source_name, "The Guardian");
    assert_eq!(r.response_code, Some(Nat::from(200u32)));
    assert_eq!(
        r.error_message.as_deref(),
        Some("Failed to parse XML response body. Error=missing field `channel`")
    );
    assert!(r.news.is_empty());
}

#[test]
fn zero_limit_is_rejected_before_fetching() {
    match validate_news_per_source(0) {
        Err(resp) => {
            assert!(resp.sources.is_empty());
            assert_eq!(resp.error_message.as_deref(), Some("news_per_source must be > 0"));
        }
        Ok(_) => panic!("a zero limit must be refused"),
    }
}

#[test]
fn positive_limits_are_accepted() {
    assert_eq!(validate_news_per_source(1).ok(), Some(1));
    assert_eq!(validate_news_per_source(5).ok(), Some(5));
    assert_eq!(validate_news_per_source(255).ok(), Some(255));
}

#[test]
fn one_entry_per_source_in_registry_order() {
    let completed = vec![(0, ok_entry(0, 4)), (1, ok_entry(1, 1)), (2, ok_entry(2, 0))];
    let r = fetch_aggregated_news(completed);
    assert!(r.error_message.is_none());
    assert_eq!(r.sources.len(), 3);
    assert_eq!(r.sources[0].news.len(), 3);
    assert_eq!(r.sources[1].news.len(), 1);
    assert_eq!(r.sources[2].news.len(), 0);
}

#[test]
fn out_of_order_completion_keeps_registry_order() {
    let completed = vec![(2, ok_entry(2, 1)), (0, ok_entry(0, 2)), (1, failed_entry(1))];
    let r = fetch_aggregated_news(completed);
    let names: Vec<&str> = r.sources.iter().map(|s| s.source_name.as_str()).collect();
    assert_eq!(names, vec!["BBC News", "POLITICO", "The Guardian"]);
    assert_eq!(r.sources[0].news.len(), 2);
    assert_eq!(r.sources[2].news.len(), 1);
}

#[test]
fn failing_source_leaves_siblings_intact() {
    let completed = vec![(1, failed_entry(1)), (0, ok_entry(0, 5)), (2, ok_entry(2, 3))];
    let r = fetch_aggregated_news(completed);
    assert!(r.sources[1].response_code.is_none());
    assert!(r.sources[1].error_message.is_some());
    assert!(r.sources[1].news.is_empty());
    for i in [0, 2] {
        assert_eq!(r.sources[i].response_code, Some(Nat::from(200u32)));
        assert!(r.sources[i].error_message.is_none());
        assert_eq!(r.sources[i].news.len(), 3);
    }
}

#[test]
fn repeated_calls_give_identical_responses() {
    let run = |order: [usize; 3]| {
        let completed = order
            .iter()
            .map(|&i| if i == 1 { (i, failed_entry(i)) } else { (i, ok_entry(i, 4)) })
            .collect();
        fetch_aggregated_news(completed)
    };
    let a = run([0, 1, 2]);
    let b = run([2, 0, 1]);
    assert_eq!(a.sources.len(), b.sources.len());
    for (x, y) in a.sources.iter().zip(b.sources.iter()) {
        assert_eq!(x.source_name, y.source_name);
        assert_eq!(x.response_code, y.response_code);
        assert_eq!(x.error_message, y.error_message);
        assert_eq!(x.news.len(), y.news.len());
        for (p, q) in x.news.iter().zip(y.news.iter()) {
            assert_eq!(p.title, q.title);
            assert_eq!(p.description, q.description);
            assert_eq!(p.link, q.link);
        }
    }
    assert_eq!(a.error_message, b.error_message);
}
