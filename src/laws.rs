use vstd::prelude::*;

use crate::aggregate::{entry_for, has_entry, in_registry_order, is_completion};
use crate::fetch::{transport_failure_view, RejectionCode};
use crate::model::{ArticleView, NewsSource};
use crate::parse::{decode_failure_view, malformed_feed_view, parsed_feed_view};
use crate::registry::registry;

verus! {

/// Once every registered source has finished, the response holds exactly one
/// entry per registered source.
pub proof fn lemma_every_source_reported(completed: Seq<(usize, NewsSource)>)
    requires
        is_completion(completed, registry().len()),
    ensures
        in_registry_order(completed).len() == registry().len(),
{
}

/// Each source's entry is its own finished outcome, whatever the outcomes of
/// the other sources: a failing source leaves its siblings' entries intact.
pub proof fn lemma_entry_is_own_outcome(completed: Seq<(usize, NewsSource)>, k: int)
    requires
        is_completion(completed, registry().len()),
        0 <= k < completed.len(),
    ensures
        in_registry_order(completed)[completed[k].0 as int] == completed[k].1,
{
    let j = completed[k].0 as int;
    assert(completed[k].0 == j);
    let m = choose|m: int| 0 <= m < completed.len() && (#[trigger] completed[m]).0 == j;
    if m != k {
        assert(completed[m].0 != completed[k].0);
    }
}

/// A source whose feed was read with `K` items, kept with limit `L`, reports
/// `min(K, L)` articles: the first ones of the feed, in feed order, and no
/// error.
pub proof fn lemma_feed_truncation(
    title: Seq<char>,
    status: candid::Nat,
    limit: nat,
    items: Seq<ArticleView>,
)
    ensures
        ({
            let v = parsed_feed_view(title, status, limit, items);
            &&& v.news.len() == if items.len() <= limit {
                items.len()
            } else {
                limit
            }
            &&& forall|i: int| 0 <= i < v.news.len() ==> v.news[i] == items[i]
            &&& v.error_message is None
            &&& v.response_code == Some(status)
        }),
{
}

/// A source whose outbound call failed reports no status, an error message and
/// no articles.
pub proof fn lemma_transport_failure_shape(title: Seq<char>, code: RejectionCode, message: Seq<char>)
    ensures
        ({
            let v = transport_failure_view(title, code, message);
            &&& v.source_name == title
            &&& v.response_code is None
            &&& v.error_message is Some
            &&& v.news.len() == 0
        }),
{
}

/// A source that answered, but not with a readable feed (a body that is not
/// UTF-8, or text that is not a feed of the expected shape), reports the
/// status it answered with, an error message and no articles.
pub proof fn lemma_unreadable_feed_shape(title: Seq<char>, status: candid::Nat, detail: Seq<char>)
    ensures
        ({
            let v = decode_failure_view(title, status, detail);
            &&& v.response_code == Some(status)
            &&& v.error_message is Some
            &&& v.news.len() == 0
        }),
        ({
            let v = malformed_feed_view(title, status, detail);
            &&& v.response_code == Some(status)
            &&& v.error_message is Some
            &&& v.news.len() == 0
        }),
{
}

/// Two aggregation calls whose sources finished with the same content give
/// the same response, whatever order the sources finished in each call.
pub proof fn lemma_repeated_calls_agree(
    first: Seq<(usize, NewsSource)>,
    second: Seq<(usize, NewsSource)>,
)
    requires
        is_completion(first, registry().len()),
        is_completion(second, registry().len()),
        forall|k: int, m: int|
            0 <= k < first.len() && 0 <= m < second.len() && (#[trigger] first[k]).0 == (
            #[trigger] second[m]).0 ==> first[k].1@ == second[m].1@,
    ensures
        in_registry_order(first).map_values(|s: NewsSource| s@) == in_registry_order(
            second,
        ).map_values(|s: NewsSource| s@),
{
    assert forall|j: int| 0 <= j < first.len() implies entry_for(first, j)@ == entry_for(
        second,
        j,
    )@ by {
        assert(has_entry(first, j));
        assert(has_entry(second, j));
        let k = choose|k: int| 0 <= k < first.len() && (#[trigger] first[k]).0 == j;
        let m = choose|m: int| 0 <= m < second.len() && (#[trigger] second[m]).0 == j;
        assert(first[k].0 == second[m].0);
    }
    assert(in_registry_order(first).map_values(|s: NewsSource| s@) =~= in_registry_order(
        second,
    ).map_values(|s: NewsSource| s@));
}

/// The response lists the sources in registry order, independent of the order
/// in which their calls completed.
pub proof fn lemma_order_independent_of_completion(
    first: Seq<(usize, NewsSource)>,
    second: Seq<(usize, NewsSource)>,
)
    requires
        is_completion(first, registry().len()),
        is_completion(second, registry().len()),
        forall|k: int| 0 <= k < first.len() ==> second.contains(#[trigger] first[k]),
    ensures
        in_registry_order(first) == in_registry_order(second),
{
    assert forall|j: int| 0 <= j < first.len() implies entry_for(first, j) == entry_for(
        second,
        j,
    ) by {
        assert(has_entry(first, j));
        assert(has_entry(second, j));
        let k = choose|k: int| 0 <= k < first.len() && (#[trigger] first[k]).0 == j;
        let m = choose|m: int| 0 <= m < second.len() && (#[trigger] second[m]).0 == j;
        assert(second.contains(first[k]));
        let q = choose|q: int| 0 <= q < second.len() && second[q] == first[k];
        if q != m {
            assert(second[q].0 != second[m].0);
        }
    }
    assert(in_registry_order(first) =~= in_registry_order(second));
}

} // verus!
