use vstd::prelude::*;

verus! {

/// A registered feed source: its display name and the URL of its feed.
pub struct SourceConfig {
    pub title: String,
    pub url: String,
}

pub struct SourceConfigView {
    pub title: Seq<char>,
    pub url: Seq<char>,
}

impl View for SourceConfig {
    type V = SourceConfigView;

    open spec fn view(&self) -> SourceConfigView {
        SourceConfigView { title: self.title@, url: self.url@ }
    }
}

/// Number of articles kept per source when the caller gives no limit.
pub const DEFAULT_NEWS_AMOUNT: usize = 3;

/// Ceiling on the size of each feed response, in bytes.
pub const MAX_RESPONSE_SIZE_BYTES: u64 = 262144;

/// The registered sources, in declaration order.
pub open spec fn registry() -> Seq<SourceConfigView> {
    seq![
        SourceConfigView { title: "BBC News"@, url: "https://feeds.bbci.co.uk/news/rss.xml"@ },
        SourceConfigView { title: "POLITICO"@, url: "https://rss.politico.com/politics-news.xml"@ },
        SourceConfigView { title: "The Guardian"@, url: "https://www.theguardian.com/world/rss"@ },
    ]
}

fn source(title: &str, url: &str) -> (r: SourceConfig)
    ensures
        r@ == (SourceConfigView { title: title@, url: url@ }),
{
    SourceConfig { title: title.to_string(), url: url.to_string() }
}

/// The source registry, in declaration order.
pub fn news_sources() -> (r: Vec<SourceConfig>)
    ensures
        r@.len() == registry().len(),
        forall|i: int| 0 <= i < r@.len() ==> (#[trigger] r@[i])@ == registry()[i],
{
    let mut r: Vec<SourceConfig> = Vec::new();
    r.push(source("BBC News", "https://feeds.bbci.co.uk/news/rss.xml"));
    r.push(source("POLITICO", "https://rss.politico.com/politics-news.xml"));
    r.push(source("The Guardian", "https://www.theguardian.com/world/rss"));
    r
}

} // verus!
