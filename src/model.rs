use vstd::prelude::*;

verus! {

/// An HTTP status as the transport reports it; the library only carries it.
#[verifier::external_type_specification]
#[verifier::external_body]
pub struct ExNat(candid::Nat);

/// One normalized news item, copied verbatim from a feed.
pub struct Article {
    pub title: String,
    pub description: String,
    pub link: String,
}

pub struct ArticleView {
    pub title: Seq<char>,
    pub description: Seq<char>,
    pub link: Seq<char>,
}

impl View for Article {
    type V = ArticleView;

    open spec fn view(&self) -> ArticleView {
        ArticleView { title: self.title@, description: self.description@, link: self.link@ }
    }
}

/// The outcome for one source within one aggregation call.
pub struct NewsSource {
    pub source_name: String,
    /// Absent when the transport failed before an HTTP status was produced.
    pub response_code: Option<candid::Nat>,
    /// Present exactly when some stage of this source's pipeline failed.
    pub error_message: Option<String>,
    pub news: Vec<Article>,
}

pub struct NewsSourceView {
    pub source_name: Seq<char>,
    pub response_code: Option<candid::Nat>,
    pub error_message: Option<Seq<char>>,
    pub news: Seq<ArticleView>,
}

pub open spec fn opt_string_view(s: Option<String>) -> Option<Seq<char>> {
    match s {
        Some(t) => Some(t@),
        None => None,
    }
}

pub open spec fn articles_view(a: Seq<Article>) -> Seq<ArticleView> {
    a.map_values(|x: Article| x@)
}

impl View for NewsSource {
    type V = NewsSourceView;

    open spec fn view(&self) -> NewsSourceView {
        NewsSourceView {
            source_name: self.source_name@,
            response_code: self.response_code,
            error_message: opt_string_view(self.error_message),
            news: articles_view(self.news@),
        }
    }
}

/// The combined response of one aggregation call.
pub struct AggregatedNewsResponse {
    /// One entry per registered source, in registry order.
    pub sources: Vec<NewsSource>,
    /// Present only when the request itself was rejected.
    pub error_message: Option<String>,
}

pub struct AggregatedNewsResponseView {
    pub sources: Seq<NewsSourceView>,
    pub error_message: Option<Seq<char>>,
}

impl View for AggregatedNewsResponse {
    type V = AggregatedNewsResponseView;

    open spec fn view(&self) -> AggregatedNewsResponseView {
        AggregatedNewsResponseView {
            sources: self.sources@.map_values(|s: NewsSource| s@),
            error_message: opt_string_view(self.error_message),
        }
    }
}

} // verus!
