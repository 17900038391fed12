use vstd::prelude::*;

use crate::model::{AggregatedNewsResponse, NewsSource};
use crate::registry::registry;

verus! {

/// The message of a request whose per-source limit is zero.
pub open spec fn limit_error_message() -> Seq<char> {
    "news_per_source must be > 0"@
}

/// Checks the caller's per-source limit before any source is contacted.
/// A zero limit is refused with a response that holds no source entry and a
/// top-level message; any other limit is the number of articles to keep per
/// source.
pub fn validate_news_per_source(news_per_source: u8) -> (r: Result<usize, AggregatedNewsResponse>)
    ensures
        r is Err <==> news_per_source == 0,
        r matches Ok(limit) ==> limit == news_per_source as usize,
        r matches Err(resp) ==> resp@.sources.len() == 0 && resp@.error_message == Some(
            limit_error_message(),
        ),
{
    if news_per_source == 0 {
        let sources: Vec<NewsSource> = Vec::new();
        let r = AggregatedNewsResponse {
            sources,
            error_message: Some("news_per_source must be > 0".to_string()),
        };
        assert(r@.sources.len() == 0);
        Err(r)
    } else {
        Ok(news_per_source as usize)
    }
}

/// `completed` holds one finished entry for each of `n` sources, each tagged
/// with the source's position in the registry, in any order.
pub open spec fn is_completion(completed: Seq<(usize, NewsSource)>, n: nat) -> bool {
    &&& completed.len() == n
    &&& forall|k: int| 0 <= k < completed.len() ==> (#[trigger] completed[k]).0 < n
    &&& forall|k: int, m: int|
        0 <= k < completed.len() && 0 <= m < completed.len() && k != m ==> (
        #[trigger] completed[k]).0 != (#[trigger] completed[m]).0
    &&& forall|j: int| 0 <= j < n ==> #[trigger] has_entry(completed, j)
}

/// Some finished entry is tagged with registry position `j`.
pub open spec fn has_entry(completed: Seq<(usize, NewsSource)>, j: int) -> bool {
    exists|k: int| 0 <= k < completed.len() && (#[trigger] completed[k]).0 == j
}

/// The entry tagged with registry position `j`.
pub open spec fn entry_for(completed: Seq<(usize, NewsSource)>, j: int) -> NewsSource {
    completed[choose|k: int| 0 <= k < completed.len() && (#[trigger] completed[k]).0 == j].1
}

/// The finished entries, placed at their registry positions.
pub open spec fn in_registry_order(completed: Seq<(usize, NewsSource)>) -> Seq<NewsSource> {
    Seq::new(completed.len(), |j: int| entry_for(completed, j))
}

/// Assembles the combined response from the finished entries of all the
/// registered sources, whatever order they finished in: each entry goes to its
/// source's registry position, and the response carries no top-level error.
pub fn fetch_aggregated_news(completed: Vec<(usize, NewsSource)>) -> (r: AggregatedNewsResponse)
    requires
        is_completion(completed@, registry().len()),
    ensures
        r.error_message is None,
        r.sources@ == in_registry_order(completed@),
{
    let n = completed.len();
    let ghost orig = completed@;
    let mut slots: Vec<Option<NewsSource>> = Vec::new();
    let mut i: usize = 0;
    while i < n
        invariant
            i <= n,
            slots@.len() == i,
        decreases n - i,
    {
        slots.push(None);
        i = i + 1;
    }
    let mut pending = completed;
    while pending.len() > 0
        invariant
            n == orig.len(),
            is_completion(orig, n as nat),
            slots@.len() == n,
            pending@.len() <= n,
            pending@ == orig.take(pending@.len() as int),
            forall|k: int|
                pending@.len() <= k < n ==> slots@[(#[trigger] orig[k]).0 as int] == Some(
                    orig[k].1,
                ),
        decreases pending@.len(),
    {
        let ghost p = pending@.len() - 1;
        match pending.pop() {
            Some((idx, item)) => {
                assert(orig[p] == (idx, item));
                slots[idx] = Some(item);
                assert forall|k: int| pending@.len() <= k < n implies slots@[(#[trigger] orig[
                    k]).0 as int] == Some(orig[k].1) by {
                    if k != p {
                        assert(orig[k].0 != orig[p].0);
                    }
                }
                assert(pending@ =~= orig.take(pending@.len() as int));
            },
            None => {},
        }
    }
    assert forall|j: int| 0 <= j < n implies slots@[j] == Some(entry_for(orig, j)) by {
        assert(has_entry(orig, j));
        let k = choose|k: int| 0 <= k < orig.len() && (#[trigger] orig[k]).0 == j;
        assert(slots@[orig[k].0 as int] == Some(orig[k].1));
    }
    let mut sources: Vec<NewsSource> = Vec::new();
    let mut j: usize = 0;
    while j < n
        invariant
            j <= n,
            n == orig.len(),
            sources@.len() == j,
            slots@.len() == n - j,
            forall|t: int| 0 <= t < n - j ==> slots@[t] == Some(entry_for(orig, j + t)),
            forall|t: int| 0 <= t < j ==> sources@[t] == entry_for(orig, t),
        decreases n - j,
    {
        let slot = slots.remove(0);
        match slot {
            Some(item) => {
                sources.push(item);
            },
            None => {},
        }
        j = j + 1;
    }
    assert(sources@ =~= in_registry_order(orig));
    AggregatedNewsResponse { sources, error_message: None }
}

} // verus!
