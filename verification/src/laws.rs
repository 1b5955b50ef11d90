//! Properties that hold of the library as a whole: results never exceed the
//! limit and are ranked in order, links are kept unique where the parser
//! removes duplicates and nothing else is passed over, each parser reads its
//! title and link from the elements it names, normalized links stay
//! normalized, Brave's escapes are decoded, documents list every link and
//! image and take their title from a level-one heading, the provider plan
//! only tries providers that exist, and stopping a driver undoes its
//! registration.
use vstd::prelude::*;
use crate::search::parser::base::{gather, gather_from, url_taken, Entry};
use crate::search::types::Hit;
use crate::fetcher::driver::RunningDriver;

verus! {

/// What gathered results look like: at most `limit` of them, ranked
/// 1, 2, 3, ... in order, and (with `dedup`) no link twice.
pub open spec fn well_ranked(hs: Seq<Hit>, limit: nat, dedup: bool) -> bool {
    &&& hs.len() <= limit
    &&& forall|k: int| 0 <= k < hs.len() ==> #[trigger] hs[k].rank == k + 1
    &&& dedup ==> forall|j: int, k: int| 0 <= j < k < hs.len() ==> #[trigger] hs[j].url != #[trigger] hs[k].url
}

/// A result without its rank.
pub open spec fn entry_of_hit(h: Hit) -> Entry {
    Entry { title: h.title, url: h.url, snippet: h.snippet }
}

/// Every result is one of the candidates, with its rank added.
pub open spec fn from_candidates(hs: Seq<Hit>, cands: Seq<Option<Entry>>) -> bool {
    forall|k: int| 0 <= k < hs.len() ==> cands.contains(Some(entry_of_hit(#[trigger] hs[k])))
}

proof fn lemma_gather_from(cands: Seq<Option<Entry>>, i: int, limit: nat, dedup: bool, acc: Seq<Hit>)
    requires
        0 <= i,
        well_ranked(acc, limit, dedup),
        from_candidates(acc, cands),
    ensures
        well_ranked(gather_from(cands, i, limit, dedup, acc), limit, dedup),
        from_candidates(gather_from(cands, i, limit, dedup, acc), cands),
    decreases cands.len() - i,
{
    if i < cands.len() && acc.len() < limit {
        match cands[i] {
            None => {
                lemma_gather_from(cands, i + 1, limit, dedup, acc);
            },
            Some(e) => {
                if dedup && url_taken(acc, e.url) {
                    lemma_gather_from(cands, i + 1, limit, dedup, acc);
                } else {
                    let h = Hit { title: e.title, url: e.url, snippet: e.snippet, rank: acc.len() + 1 };
                    let next = acc.push(h);
                    assert forall|j: int, k: int| dedup && 0 <= j < k < next.len() implies #[trigger] next[j].url
                        != #[trigger] next[k].url by {
                        if k == acc.len() {
                            if next[j].url == e.url {
                                assert(url_taken(acc, e.url));
                            }
                        } else {
                            assert(next[j] == acc[j] && next[k] == acc[k]);
                        }
                    }
                    assert forall|k: int| 0 <= k < next.len() implies cands.contains(
                        Some(entry_of_hit(#[trigger] next[k])),
                    ) by {
                        if k == acc.len() {
                            assert(cands[i] == Some(entry_of_hit(next[k])));
                        } else {
                            assert(next[k] == acc[k]);
                        }
                    }
                    lemma_gather_from(cands, i + 1, limit, dedup, next);
                }
            },
        }
    }
}

/// Results chosen from candidates are at most `limit`, ranked 1, 2, 3, ...
/// in order, each one a candidate, and, where duplicates are removed, each
/// link appears once.
pub proof fn law_gathered_results(cands: Seq<Option<Entry>>, limit: nat, dedup: bool)
    ensures
        well_ranked(gather(cands, limit, dedup), limit, dedup),
        from_candidates(gather(cands, limit, dedup), cands),
{
    lemma_gather_from(cands, 0, limit, dedup, Seq::empty());
}

} // verus!

verus! {

use crate::search::parser::base::{positional, positional_from};
use crate::search::parser::brave::json_hits_from;
use crate::json::JsonValue;

/// Results ranked by element position: ranks increase strictly and lie
/// between 1 and `limit`.
pub open spec fn positionally_ranked(hs: Seq<Hit>, limit: nat) -> bool {
    &&& forall|k: int| 0 <= k < hs.len() ==> 1 <= #[trigger] hs[k].rank <= limit
    &&& forall|j: int, k: int| 0 <= j < k < hs.len() ==> #[trigger] hs[j].rank < #[trigger] hs[k].rank
}

proof fn lemma_ranks_bound_length(hs: Seq<Hit>, limit: nat)
    requires
        positionally_ranked(hs, limit),
    ensures
        hs.len() <= limit,
    decreases hs.len(),
{
    if hs.len() > 0 {
        let init = hs.drop_last();
        assert forall|k: int| 0 <= k < init.len() implies 1 <= #[trigger] init[k].rank <= (hs.last().rank - 1) as nat by {
            assert(init[k] == hs[k]);
            assert(hs[k].rank < hs[hs.len() - 1].rank);
        }
        assert forall|j: int, k: int| 0 <= j < k < init.len() implies #[trigger] init[j].rank < #[trigger] init[k].rank by {
            assert(init[j] == hs[j] && init[k] == hs[k]);
        }
        lemma_ranks_bound_length(init, (hs.last().rank - 1) as nat);
    }
}

proof fn lemma_positional_from(cands: Seq<Option<Entry>>, i: int, limit: nat, acc: Seq<Hit>)
    requires
        0 <= i,
        positionally_ranked(acc, limit),
        forall|k: int| 0 <= k < acc.len() ==> #[trigger] acc[k].rank <= i,
    ensures
        positionally_ranked(positional_from(cands, i, limit, acc), limit),
    decreases cands.len() - i,
{
    if i < cands.len() && i < limit {
        match cands[i] {
            Some(e) => {
                let next = acc.push(Hit { title: e.title, url: e.url, snippet: e.snippet, rank: (i + 1) as nat });
                assert forall|j: int, k: int| 0 <= j < k < next.len() implies #[trigger] next[j].rank < #[trigger] next[k].rank by {
                    if k == acc.len() {
                        assert(next[j] == acc[j]);
                    } else {
                        assert(next[j] == acc[j] && next[k] == acc[k]);
                    }
                }
                assert forall|k: int| 0 <= k < next.len() implies 1 <= #[trigger] next[k].rank <= limit by {
                    if k < acc.len() {
                        assert(next[k] == acc[k]);
                    }
                }
                assert forall|k: int| 0 <= k < next.len() implies #[trigger] next[k].rank <= i + 1 by {
                    if k < acc.len() {
                        assert(next[k] == acc[k]);
                    }
                }
                lemma_positional_from(cands, i + 1, limit, next);
            },
            None => {
                lemma_positional_from(cands, i + 1, limit, acc);
            },
        }
    }
}

/// Results ranked by element position come from the first `limit`
/// elements: there are at most `limit` of them, with strictly increasing
/// ranks between 1 and `limit`.
pub proof fn law_positional_results(cands: Seq<Option<Entry>>, limit: nat)
    ensures
        positionally_ranked(positional(cands, limit), limit),
        positional(cands, limit).len() <= limit,
{
    lemma_positional_from(cands, 0, limit, Seq::empty());
    lemma_ranks_bound_length(positional(cands, limit), limit);
}

proof fn lemma_json_hits_from(rs: Seq<JsonValue>, i: int, limit: nat, acc: Seq<Hit>)
    requires
        0 <= i,
        positionally_ranked(acc, limit),
        forall|k: int| 0 <= k < acc.len() ==> #[trigger] acc[k].rank <= i,
    ensures
        positionally_ranked(json_hits_from(rs, i, limit, acc), limit),
    decreases rs.len() - i,
{
    if i < rs.len() && i < limit {
        match crate::search::parser::brave::json_entry(rs[i]) {
            Some(e) => {
                let next = acc.push(Hit { title: e.title, url: e.url, snippet: e.snippet, rank: (i + 1) as nat });
                assert forall|j: int, k: int| 0 <= j < k < next.len() implies #[trigger] next[j].rank < #[trigger] next[k].rank by {
                    if k == acc.len() {
                        assert(next[j] == acc[j]);
                    } else {
                        assert(next[j] == acc[j] && next[k] == acc[k]);
                    }
                }
                assert forall|k: int| 0 <= k < next.len() implies 1 <= #[trigger] next[k].rank <= limit by {
                    if k < acc.len() {
                        assert(next[k] == acc[k]);
                    }
                }
                assert forall|k: int| 0 <= k < next.len() implies #[trigger] next[k].rank <= i + 1 by {
                    if k < acc.len() {
                        assert(next[k] == acc[k]);
                    }
                }
                lemma_json_hits_from(rs, i + 1, limit, next);
            },
            None => {
                lemma_json_hits_from(rs, i + 1, limit, acc);
            },
        }
    }
}

/// Results read from Brave's embedded JSON come from the first `limit`
/// entries: at most `limit`, with strictly increasing ranks between 1 and
/// `limit`.
pub proof fn law_brave_json_results(rs: Seq<JsonValue>, limit: nat)
    ensures
        positionally_ranked(json_hits_from(rs, 0, limit, Seq::empty()), limit),
        json_hits_from(rs, 0, limit, Seq::empty()).len() <= limit,
{
    lemma_json_hits_from(rs, 0, limit, Seq::empty());
    lemma_ranks_bound_length(json_hits_from(rs, 0, limit, Seq::empty()), limit);
}

} // verus!

verus! {

use crate::search::parser::baidu::baidu_results;
use crate::search::parser::bing::bing_results;
use crate::search::parser::brave::{brave_fallback_from, brave_results, embedded_results, Scan};
use crate::search::parser::duckduckgo::ddg_results;
use crate::search::parser::google::google_results;
use crate::search::parser::sogou_weixin::weixin_results;

proof fn lemma_brave_fallback(html: Seq<char>, k: int, limit: nat)
    ensures
        well_ranked(brave_fallback_from(html, k, limit), limit, false),
    decreases 6 - k,
{
    if 0 <= k < 6 {
        law_gathered_results(crate::search::parser::brave::brave_pass(html, k), limit, false);
        lemma_brave_fallback(html, k + 1, limit);
    }
}

/// Every web parser returns at most `limit` results. Those that rank by
/// output position rank 1, 2, 3, ...; DuckDuckGo, Google and Sogou WeChat
/// return each link once; Brave's embedded results keep their position.
pub proof fn law_web_results_within_limit(html: Seq<char>, limit: nat)
    ensures
        well_ranked(bing_results(html, limit), limit, false),
        well_ranked(baidu_results(html, limit), limit, false),
        well_ranked(ddg_results(html, limit), limit, true),
        well_ranked(google_results(html, limit), limit, true),
        well_ranked(weixin_results(html, limit), limit, true),
        brave_results(html, limit).len() <= limit,
{
    law_gathered_results(crate::search::parser::bing::bing_candidates(html), limit, false);
    law_gathered_results(crate::search::parser::baidu::baidu_candidates(html), limit, false);
    law_gathered_results(crate::search::parser::duckduckgo::ddg_passes(html, 3), limit, true);
    law_gathered_results(crate::search::parser::google::google_passes(html, 5), limit, true);
    law_gathered_results(crate::search::parser::sogou_weixin::weixin_candidates(html), limit, true);
    lemma_brave_fallback(html, 0, limit);
    match embedded_results(html) {
        Scan::Found(rs) => {
            law_brave_json_results(rs, limit);
        },
        _ => {},
    }
}

} // verus!

verus! {

use crate::search::parser::base::{absolute_from_root, absolute_url};
use crate::search::parser::brave::brave_url;
use crate::search::parser::google::google_url;
use crate::search::parser::sogou_weixin::weixin_normalized;
use crate::text::{has_infix, has_prefix};

proof fn lemma_prefix_of_concat(a: Seq<char>, b: Seq<char>, p: Seq<char>)
    requires
        has_prefix(a, p),
    ensures
        has_prefix(a + b, p),
{
    assert((a + b).subrange(0, p.len() as int) =~= a.subrange(0, p.len() as int));
}

proof fn lemma_double_slash(s: Seq<char>, href: Seq<char>)
    requires
        s == "https:"@ + href,
        has_prefix(href, "//"@),
    ensures
        has_prefix(s, "https://"@),
{
    reveal_strlit("https:");
    reveal_strlit("https://");
    reveal_strlit("//");
    assert(href[0] == href.subrange(0, 2)[0]);
    assert(href[1] == href.subrange(0, 2)[1]);
    assert(s.subrange(0, 8) =~= "https://"@);
}

/// Making a link absolute twice gives what making it absolute once gives,
/// for an origin that is itself an `http` address (Brave and DuckDuckGo
/// links).
pub proof fn law_absolute_url_idempotent(href: Seq<char>, origin: Seq<char>)
    requires
        has_prefix(origin, "http"@),
    ensures
        absolute_url(absolute_url(href, origin), origin) == absolute_url(href, origin),
{
    reveal_strlit("https:");
    reveal_strlit("http");
    if has_prefix(href, "http"@) {
    } else if has_prefix(href, "//"@) {
        assert("https:"@.subrange(0, 4) =~= "http"@);
        lemma_prefix_of_concat("https:"@, href, "http"@);
    } else if has_prefix(href, "/"@) {
        lemma_prefix_of_concat(origin, href, "http"@);
    }
}

/// The same for the Bing and unified Google form, which only puts links
/// starting with `/` under the origin.
pub proof fn law_absolute_from_root_idempotent(href: Seq<char>, origin: Seq<char>)
    requires
        has_prefix(origin, "http"@),
    ensures
        absolute_from_root(absolute_from_root(href, origin), origin) == absolute_from_root(href, origin),
{
    if has_prefix(href, "http"@) {
    } else if has_prefix(href, "/"@) {
        lemma_prefix_of_concat(origin, href, "http"@);
    }
}

/// Brave's link normalization is idempotent.
pub proof fn law_brave_url_idempotent(href: Seq<char>)
    ensures
        brave_url(brave_url(href)) == brave_url(href),
{
    reveal_strlit("https://search.brave.com");
    reveal_strlit("http");
    assert("https://search.brave.com"@.subrange(0, 4) =~= "http"@);
    law_absolute_url_idempotent(href, "https://search.brave.com"@);
}

/// Google's link normalization is idempotent.
pub proof fn law_google_url_idempotent(href: Seq<char>)
    ensures
        google_url(google_url(href)) == google_url(href),
{
    reveal_strlit("https:");
    reveal_strlit("https://");
    reveal_strlit("https://www.google.com");
    if has_prefix(href, "http://"@) || has_prefix(href, "https://"@) {
    } else if has_prefix(href, "//"@) {
        reveal_strlit("//");
        lemma_double_slash("https:"@ + href, href);
    } else if has_prefix(href, "/"@) {
        assert("https://www.google.com"@.subrange(0, 8) =~= "https://"@);
        lemma_prefix_of_concat("https://www.google.com"@, href, "https://"@);
    }
}

/// Sogou WeChat's link normalization is idempotent.
pub proof fn law_weixin_normalized_idempotent(href: Seq<char>)
    ensures
        weixin_normalized(weixin_normalized(href)) == weixin_normalized(href),
{
    reveal_strlit("https:");
    reveal_strlit("https://");
    reveal_strlit("//");
    reveal_strlit("https://weixin.sogou.com");
    reveal_strlit("https://mp.weixin.qq.com");
    if has_prefix(href, "http://"@) || has_prefix(href, "https://"@) {
    } else if has_prefix(href, "//"@) {
        lemma_double_slash("https:"@ + href, href);
    } else if has_prefix(href, "/link?"@) {
        assert("https://weixin.sogou.com"@.subrange(0, 8) =~= "https://"@);
        lemma_prefix_of_concat("https://weixin.sogou.com"@, href, "https://"@);
    } else if has_prefix(href, "/"@) {
        assert("https://weixin.sogou.com"@.subrange(0, 8) =~= "https://"@);
        assert("https://mp.weixin.qq.com"@.subrange(0, 8) =~= "https://"@);
        lemma_prefix_of_concat("https://weixin.sogou.com"@, href, "https://"@);
        lemma_prefix_of_concat("https://mp.weixin.qq.com"@, href, "https://"@);
    }
}

} // verus!

verus! {

use crate::parser::base::listed_hits;
use crate::parser::custom::custom_mock_hits;
use crate::search::parser::tavily::mock_hits;
use crate::search::api::{
    attempt_plan, capped, fallbacks_from, listed, provider_hit, provider_hits_from, AutoSwitchStrategy,
};
use crate::parser::engines::{same_engine, SearchEngineType};

/// The placeholder parsers give as many results as the limit asks for, up
/// to 10 (8 for custom engines), ranked 1, 2, 3, ...
pub proof fn law_placeholder_results(
    brand: Seq<char>,
    slug: Seq<char>,
    name: Seq<char>,
    sel: (Seq<char>, Seq<char>, Seq<char>, Seq<char>),
    limit: nat,
)
    ensures
        mock_hits(brand, slug, limit).len() == (if limit < 10 { limit } else { 10 }),
        forall|k: int| 0 <= k < mock_hits(brand, slug, limit).len() ==> #[trigger] mock_hits(brand, slug, limit)[k].rank == k + 1,
        custom_mock_hits(name, sel, limit).len() == (if limit < 8 { limit } else { 8 }),
        forall|k: int| 0 <= k < custom_mock_hits(name, sel, limit).len() ==> #[trigger] custom_mock_hits(name, sel, limit)[k].rank == k + 1,
{
}

/// A JSON API parser gives one result per listed entry, up to the limit,
/// ranked by position from 0.
pub proof fn law_listed_results(
    json: JsonValue,
    list_field: Seq<char>,
    title: Seq<char>,
    url: Seq<char>,
    snippet: Seq<char>,
    limit: nat,
)
    ensures
        listed_hits(json, list_field, title, url, snippet, limit).len() <= limit,
        forall|k: int| 0 <= k < listed_hits(json, list_field, title, url, snippet, limit).len() ==> #[trigger] listed_hits(
            json,
            list_field,
            title,
            url,
            snippet,
            limit,
        )[k].rank == k,
{
}

proof fn lemma_provider_hits(
    entries: Seq<JsonValue>,
    i: int,
    keys: (Seq<char>, Seq<char>, Seq<char>),
    req: bool,
    cap: Option<nat>,
    acc: Seq<Hit>,
)
    requires
        0 <= i,
        acc.len() <= i,
        forall|k: int| 0 <= k < acc.len() ==> (cap matches Some(n) ==> #[trigger] acc[k].snippet.len() <= n),
    ensures
        provider_hits_from(entries, i, keys, req, cap, acc).len() <= if i <= entries.len() { entries.len() as int } else { i },
        forall|k: int| 0 <= k < provider_hits_from(entries, i, keys, req, cap, acc).len() ==> (cap matches Some(n)
            ==> #[trigger] provider_hits_from(entries, i, keys, req, cap, acc)[k].snippet.len() <= n),
    decreases entries.len() - i,
{
    if i < entries.len() {
        match provider_hit(entries[i], keys, req, cap, (i + 1) as nat) {
            Some(h) => {
                let next = acc.push(h);
                assert forall|k: int| 0 <= k < next.len() implies (cap matches Some(n) ==> #[trigger] next[k].snippet.len()
                    <= n) by {
                    if k < acc.len() {
                        assert(next[k] == acc[k]);
                    }
                }
                lemma_provider_hits(entries, i + 1, keys, req, cap, next);
            },
            None => {
                lemma_provider_hits(entries, i + 1, keys, req, cap, acc);
            },
        }
    }
}

/// API providers' responses give at most one result per entry, and where a
/// snippet is cut (Exa and Travily, at 200 characters) no snippet is
/// longer.
pub proof fn law_provider_results(entries: Seq<JsonValue>, keys: (Seq<char>, Seq<char>, Seq<char>), req: bool, cap: Option<nat>)
    ensures
        provider_hits_from(entries, 0, keys, req, cap, Seq::empty()).len() <= entries.len(),
        forall|k: int| 0 <= k < provider_hits_from(entries, 0, keys, req, cap, Seq::empty()).len() ==> (cap matches Some(n)
            ==> #[trigger] provider_hits_from(entries, 0, keys, req, cap, Seq::empty())[k].snippet.len() <= n),
{
    lemma_provider_hits(entries, 0, keys, req, cap, Seq::empty());
}

proof fn lemma_fallbacks(order: Seq<SearchEngineType>, k: int, registered: Seq<SearchEngineType>, primary: SearchEngineType)
    ensures
        forall|j: int| 0 <= j < fallbacks_from(order, k, registered, primary).len() ==> listed(registered, #[trigger] fallbacks_from(order, k, registered, primary)[j]) && !same_engine(fallbacks_from(order, k, registered, primary)[j], primary),
    decreases order.len() - k,
{
    if 0 <= k < order.len() {
        lemma_fallbacks(order, k + 1, registered, primary);
        let rest = fallbacks_from(order, k + 1, registered, primary);
        if !same_engine(order[k], primary) && listed(registered, order[k]) {
            let all = seq![order[k]] + rest;
            assert forall|j: int| 0 <= j < all.len() implies listed(registered, #[trigger] all[j]) && !same_engine(all[j], primary) by {
                if j > 0 {
                    assert(all[j] == rest[j - 1]);
                }
            }
        }
    }
}

/// A search only tries engines that have a provider; the primary engine
/// comes first when it has one and is never tried again; without switching
/// at most one provider is tried.
pub proof fn law_attempt_plan(
    strategy: AutoSwitchStrategy,
    order: Seq<SearchEngineType>,
    registered: Seq<SearchEngineType>,
    primary: SearchEngineType,
)
    ensures
        forall|j: int| 0 <= j < attempt_plan(strategy, order, registered, primary).len() ==> listed(registered, #[trigger] attempt_plan(strategy, order, registered, primary)[j]),
        listed(registered, primary) ==> attempt_plan(strategy, order, registered, primary).len() > 0 && attempt_plan(strategy, order, registered, primary)[0] == primary,
        forall|j: int| 0 < j < attempt_plan(strategy, order, registered, primary).len() ==> !same_engine(#[trigger] attempt_plan(strategy, order, registered, primary)[j], primary),
        strategy == AutoSwitchStrategy::NoSwitch ==> attempt_plan(strategy, order, registered, primary).len() <= 1,
{
    lemma_fallbacks(order, 0, registered, primary);
    let fb = fallbacks_from(order, 0, registered, primary);
    let first = if listed(registered, primary) { seq![primary] } else { Seq::<SearchEngineType>::empty() };
    let plan = attempt_plan(strategy, order, registered, primary);
    if strategy == AutoSwitchStrategy::Smart {
        assert(plan == first + fb);
        assert forall|j: int| 0 <= j < plan.len() implies listed(registered, #[trigger] plan[j]) by {
            if j >= first.len() {
                assert(plan[j] == fb[j - first.len()]);
            }
        }
        assert forall|j: int| 0 < j < plan.len() implies !same_engine(#[trigger] plan[j], primary) by {
            if j >= first.len() {
                assert(plan[j] == fb[j - first.len()]);
            } else {
                assert(first.len() == 0 || j == 0);
            }
        }
    }
}

/// Stopping the driver on the port just registered forgets exactly that
/// driver: the registry is the one from before, and the driver handed back
/// is the one registered.
pub proof fn law_stop_undoes_register(before: Map<u16, RunningDriver>, added: RunningDriver)
    requires
        !before.contains_key(added.config.port),
    ensures
        before.insert(added.config.port, added).contains_key(added.config.port),
        before.insert(added.config.port, added)[added.config.port] == added,
        before.insert(added.config.port, added).remove(added.config.port) == before,
{
    assert(before.insert(added.config.port, added).remove(added.config.port) =~= before);
}

} // verus!

verus! {

use crate::html::{document_find, first_node, node_attr, node_find, node_text, Selector};
use crate::search::parser::baidu::baidu_candidate;
use crate::search::parser::bing::bing_candidate;
use crate::text::trim;
use crate::converter::{document_of_events, MdEventView, MdTagView};

/// Whether a candidate is among the results: by its URL where duplicates are
/// removed (the first candidate of a URL stands for the others), else as it
/// is.
pub open spec fn kept(hs: Seq<Hit>, e: Entry, dedup: bool) -> bool {
    if dedup {
        exists|k: int| 0 <= k < hs.len() && #[trigger] hs[k].url == e.url
    } else {
        exists|k: int| 0 <= k < hs.len() && entry_of_hit(#[trigger] hs[k]) == e
    }
}

proof fn lemma_kept_push(acc: Seq<Hit>, h: Hit, e: Entry, dedup: bool)
    requires
        kept(acc, e, dedup),
    ensures
        kept(acc.push(h), e, dedup),
{
    if dedup {
        let k = choose|k: int| 0 <= k < acc.len() && #[trigger] acc[k].url == e.url;
        assert(acc.push(h)[k] == acc[k]);
    } else {
        let k = choose|k: int| 0 <= k < acc.len() && entry_of_hit(#[trigger] acc[k]) == e;
        assert(acc.push(h)[k] == acc[k]);
    }
}

proof fn lemma_gather_keeps(cands: Seq<Option<Entry>>, i: int, limit: nat, dedup: bool, acc: Seq<Hit>)
    requires
        0 <= i <= cands.len(),
        forall|j: int|
            0 <= j < i && #[trigger] cands[j] is Some ==> kept(acc, cands[j]->0, dedup) || acc.len() >= limit,
    ensures
        forall|j: int|
            0 <= j < cands.len() && #[trigger] cands[j] is Some ==> kept(
                gather_from(cands, i, limit, dedup, acc),
                cands[j]->0,
                dedup,
            ) || gather_from(cands, i, limit, dedup, acc).len() >= limit,
    decreases cands.len() - i,
{
    if i < cands.len() && acc.len() < limit {
        match cands[i] {
            None => {
                lemma_gather_keeps(cands, i + 1, limit, dedup, acc);
            },
            Some(e) => {
                if dedup && url_taken(acc, e.url) {
                    let k = choose|k: int| 0 <= k < acc.len() && acc[k].url == e.url;
                    assert(acc[k].url == e.url);
                    assert(kept(acc, e, dedup));
                    lemma_gather_keeps(cands, i + 1, limit, dedup, acc);
                } else {
                    let h = Hit { title: e.title, url: e.url, snippet: e.snippet, rank: acc.len() + 1 };
                    let next = acc.push(h);
                    assert(next[acc.len() as int] == h);
                    assert(entry_of_hit(h) == e);
                    assert(kept(next, e, dedup));
                    assert forall|j: int| 0 <= j < i + 1 && #[trigger] cands[j] is Some implies kept(
                        next,
                        cands[j]->0,
                        dedup,
                    ) || next.len() >= limit by {
                        if j < i && kept(acc, cands[j]->0, dedup) {
                            lemma_kept_push(acc, h, cands[j]->0, dedup);
                        }
                    }
                    lemma_gather_keeps(cands, i + 1, limit, dedup, next);
                }
            },
        }
    }
}

/// Selection passes nothing over but for the limit and, where duplicates
/// are removed, an exact repeat of a URL already kept: every present
/// candidate is among the results (with `dedup`, a result has its URL),
/// unless `limit` results were reached.
pub proof fn law_gather_keeps(cands: Seq<Option<Entry>>, limit: nat, dedup: bool)
    ensures
        forall|j: int|
            0 <= j < cands.len() && #[trigger] cands[j] is Some ==> kept(gather(cands, limit, dedup), cands[j]->0, dedup)
                || gather(cands, limit, dedup).len() == limit,
{
    lemma_gather_keeps(cands, 0, limit, dedup, Seq::empty());
    law_gathered_results(cands, limit, dedup);
}

/// With duplicates removed, a candidate whose URL differs from the URL of
/// every result kept before it is itself kept while the limit allows: the
/// results list each distinct URL of the candidates, up to the limit.
pub proof fn law_dedup_only_exact_repeats(cands: Seq<Option<Entry>>, limit: nat, j: int)
    requires
        0 <= j < cands.len(),
        cands[j] is Some,
    ensures
        (exists|k: int|
            0 <= k < gather(cands, limit, true).len() && #[trigger] gather(cands, limit, true)[k].url == cands[j]->0.url)
            || gather(cands, limit, true).len() == limit,
{
    law_gather_keeps(cands, limit, true);
    assert(cands[j] is Some);
}

/// A Baidu result element that is not an ad and whose first `h3 a` has a
/// non-empty trimmed text and a non-empty `href` gives a result whatever its
/// abstract: that text and link, and the trimmed text of its first
/// `.c-abstract`, or an empty snippet where it has none. Every such element
/// is among the results until the limit is reached.
pub proof fn law_baidu_organic_results(html: Seq<char>, limit: nat, i: int, l: usize, href: Seq<char>)
    requires
        0 <= i < document_find(html, Selector::ClassAndClass, "result"@, "c-container"@).len(),
        node_attr(html, document_find(html, Selector::ClassAndClass, "result"@, "c-container"@)[i], "data-tuiguang"@) is None,
        first_node(node_find(html, document_find(html, Selector::ClassAndClass, "result"@, "c-container"@)[i], Selector::NameInName, "h3"@, "a"@)) == Some(l),
        trim(node_text(html, l)).len() > 0,
        node_attr(html, l, "href"@) == Some(href),
        href.len() > 0,
    ensures
        ({
            let n = document_find(html, Selector::ClassAndClass, "result"@, "c-container"@)[i];
            let abs = first_node(node_find(html, n, Selector::Class, "c-abstract"@, Seq::empty()));
            &&& baidu_candidate(html, n) matches Some(e)
            &&& e.title == trim(node_text(html, l))
            &&& e.url == href
            &&& abs is None ==> e.snippet == Seq::<char>::empty()
            &&& abs matches Some(p) ==> e.snippet == trim(node_text(html, p))
            &&& kept(baidu_results(html, limit), e, false) || baidu_results(html, limit).len() == limit
        }),
{
    let nodes = document_find(html, Selector::ClassAndClass, "result"@, "c-container"@);
    let cands = crate::search::parser::baidu::baidu_candidates(html);
    assert(cands[i] == baidu_candidate(html, nodes[i]));
    law_gather_keeps(cands, limit, false);
    assert(cands[i] is Some);
}

/// A Bing result is read from the first `a` inside an `h2` of its `b_algo`
/// element and from nothing else: an element with no `h2 a` gives no
/// result, whatever other links it holds; otherwise the title is that
/// anchor's trimmed text and the link its `href` (put under
/// `https://www.bing.com` when it starts with `/`).
pub proof fn law_bing_title_link(html: Seq<char>, n: usize)
    ensures
        node_find(html, n, Selector::NameInName, "h2"@, "a"@).len() == 0 ==> bing_candidate(html, n) is None,
        bing_candidate(html, n) matches Some(e) ==> {
            let l = node_find(html, n, Selector::NameInName, "h2"@, "a"@)[0];
            &&& node_find(html, n, Selector::NameInName, "h2"@, "a"@).len() > 0
            &&& e.title == trim(node_text(html, l))
            &&& e.title.len() > 0
            &&& e.url == match node_attr(html, l, "href"@) {
                Some(h) => crate::search::parser::base::absolute_from_root(h, "https://www.bing.com"@),
                None => Seq::<char>::empty(),
            }
        },
        node_find(html, n, Selector::NameInName, "h2"@, "a"@).len() > 0 && trim(
            node_text(html, node_find(html, n, Selector::NameInName, "h2"@, "a"@)[0]),
        ).len() > 0 ==> bing_candidate(html, n) is Some,
{
}

/// The targets of the link-start events, in order.
pub open spec fn link_targets(es: Seq<MdEventView>) -> Seq<Seq<char>>
    decreases es.len(),
{
    if es.len() == 0 {
        Seq::empty()
    } else {
        let rest = link_targets(es.drop_last());
        match es.last() {
            MdEventView::Start(MdTagView::Link(u, _)) => rest.push(u),
            _ => rest,
        }
    }
}

/// The sources of the image-start events, in order.
pub open spec fn image_sources(es: Seq<MdEventView>) -> Seq<Seq<char>>
    decreases es.len(),
{
    if es.len() == 0 {
        Seq::empty()
    } else {
        let rest = image_sources(es.drop_last());
        match es.last() {
            MdEventView::Start(MdTagView::Image(u, _)) => rest.push(u),
            _ => rest,
        }
    }
}

/// A document read from Markdown events lists exactly the targets of all
/// its link events and the sources of all its image events, each once, in
/// the order of the events.
pub proof fn law_document_links_and_images(es: Seq<MdEventView>)
    ensures
        document_of_events(es).links == link_targets(es),
        document_of_events(es).images == image_sources(es),
        document_of_events(es).links.len() == link_targets(es).len(),
    decreases es.len(),
{
    if es.len() > 0 {
        law_document_links_and_images(es.drop_last());
    }
}

} // verus!

verus! {

use crate::search::parser::brave::clean_snippet;
use crate::text::replaced;

/// `s` has no character `c`.
pub open spec fn free_of(s: Seq<char>, c: char) -> bool {
    forall|i: int| 0 <= i < s.len() ==> #[trigger] s[i] != c
}

/// Text in which no escape can begin: no `&` and no `\`.
pub open spec fn plain_text(s: Seq<char>) -> bool {
    free_of(s, '&') && free_of(s, '\\')
}

proof fn lemma_replaced_skip(p: Seq<char>, x: Seq<char>, from: Seq<char>, to: Seq<char>)
    requires
        from.len() > 0,
        free_of(p, from[0]),
    ensures
        replaced(p + x, from, to) == p + replaced(x, from, to),
    decreases p.len(),
{
    if p.len() == 0 {
        assert(p + x =~= x);
        assert(p + replaced(x, from, to) =~= replaced(x, from, to));
    } else {
        let s = p + x;
        assert(s[0] == p[0]);
        if has_prefix(s, from) {
            assert(s.subrange(0, from.len() as int)[0] == s[0]);
        }
        let p1 = p.subrange(1, p.len() as int);
        assert(s.subrange(1, s.len() as int) =~= p1 + x);
        assert(free_of(p1, from[0])) by {
            assert forall|i: int| 0 <= i < p1.len() implies #[trigger] p1[i] != from[0] by {
                assert(p1[i] == p[i + 1]);
            }
        }
        lemma_replaced_skip(p1, x, from, to);
        assert(seq![p[0]] + (p1 + replaced(x, from, to)) =~= p + replaced(x, from, to));
    }
}

proof fn lemma_replaced_free(s: Seq<char>, from: Seq<char>, to: Seq<char>)
    requires
        from.len() > 0,
        free_of(s, from[0]),
    ensures
        replaced(s, from, to) == s,
{
    lemma_replaced_skip(s, Seq::empty(), from, to);
    assert(s + Seq::<char>::empty() =~= s);
    assert(replaced(Seq::<char>::empty(), from, to) == Seq::<char>::empty());
}

proof fn lemma_not_prefix(s: Seq<char>, from: Seq<char>, j: int)
    requires
        0 <= j < from.len(),
        j >= s.len() || s[j] != from[j],
    ensures
        !has_prefix(s, from),
{
    if has_prefix(s, from) {
        assert(s.subrange(0, from.len() as int)[j] == s[j]);
    }
}

/// A pass that leaves a piece with none of its pattern's first character.
proof fn lemma_pass_free(p: Seq<char>, e: Seq<char>, q: Seq<char>, from: Seq<char>, to: Seq<char>)
    requires
        plain_text(p),
        plain_text(q),
        from.len() > 0,
        from[0] == '&' || from[0] == '\\',
        free_of(e, from[0]),
    ensures
        replaced(p + e + q, from, to) == p + e + q,
{
    let s = p + e + q;
    assert forall|i: int| 0 <= i < s.len() implies #[trigger] s[i] != from[0] by {
        if i < p.len() {
            assert(s[i] == p[i]);
        } else if i < p.len() + e.len() {
            assert(s[i] == e[i - p.len()]);
        } else {
            assert(s[i] == q[i - p.len() - e.len()]);
        }
    }
    lemma_replaced_free(s, from, to);
}

/// A pass that decodes the piece it is about.
proof fn lemma_pass_hit(p: Seq<char>, q: Seq<char>, from: Seq<char>, to: Seq<char>)
    requires
        plain_text(p),
        plain_text(q),
        from.len() > 0,
        from[0] == '&' || from[0] == '\\',
    ensures
        replaced(p + from + q, from, to) == p + to + q,
{
    assert(p + from + q =~= p + (from + q));
    lemma_replaced_skip(p, from + q, from, to);
    assert((from + q).subrange(0, from.len() as int) =~= from);
    assert((from + q).subrange(from.len() as int, (from + q).len() as int) =~= q);
    lemma_replaced_free(q, from, to);
    assert(p + (to + q) =~= p + to + q);
}

/// A pass that meets the piece's first character but not its pattern.
proof fn lemma_pass_miss(p: Seq<char>, e: Seq<char>, q: Seq<char>, from: Seq<char>, to: Seq<char>)
    requires
        plain_text(p),
        plain_text(q),
        from.len() > 0,
        from[0] == '&' || from[0] == '\\',
        e.len() > 0,
        free_of(e.drop_first(), from[0]),
        !has_prefix(e + q, from),
    ensures
        replaced(p + e + q, from, to) == p + e + q,
{
    assert(p + e + q =~= p + (e + q));
    lemma_replaced_skip(p, e + q, from, to);
    let s = e + q;
    let rest = s.subrange(1, s.len() as int);
    assert(rest =~= e.drop_first() + q);
    lemma_pass_free(Seq::empty(), e.drop_first(), q, from, to);
    assert(Seq::<char>::empty() + e.drop_first() + q =~= rest);
    assert(seq![s[0]] + rest =~= s);
    assert(p + (e + q) =~= p + e + q);
}

/// Each escape that Brave leaves in result text is decoded where it stands
/// in plain text (text without `&` and `\`): `&quot;`, `&#x27;`, `&amp;`,
/// `\u003C` and `\u003E` become `"`, `'`, `&`, `<` and `>`, and plain text
/// itself is kept as it is.
pub proof fn law_brave_snippet_escapes(p: Seq<char>, q: Seq<char>)
    requires
        plain_text(p),
        plain_text(q),
    ensures
        clean_snippet(p + q) == p + q,
        clean_snippet(p + "&quot;"@ + q) == p + "\""@ + q,
        clean_snippet(p + "&#x27;"@ + q) == p + "'"@ + q,
        clean_snippet(p + "&amp;"@ + q) == p + "&"@ + q,
        clean_snippet(p + "\\u003C"@ + q) == p + "<"@ + q,
        clean_snippet(p + "\\u003E"@ + q) == p + ">"@ + q,
{
    reveal_strlit("\\u003Cstrong\\u003E");
    reveal_strlit("\\u003C/strong\\u003E");
    reveal_strlit("\\u003C");
    reveal_strlit("\\u003E");
    reveal_strlit("&quot;");
    reveal_strlit("&#x27;");
    reveal_strlit("&amp;");
    reveal_strlit("\"");
    reveal_strlit("'");
    reveal_strlit("&");
    reveal_strlit("<");
    reveal_strlit(">");
    reveal_strlit("");
    let pa = "\\u003Cstrong\\u003E"@;
    let pb = "\\u003C/strong\\u003E"@;
    let pc = "\\u003C"@;
    let pd = "\\u003E"@;
    let pe = "&quot;"@;
    let pf = "&#x27;"@;
    let pg = "&amp;"@;
    // plain text
    let z = Seq::<char>::empty();
    assert(p + z + q =~= p + q);
    lemma_pass_free(p, z, q, pa, ""@);
    lemma_pass_free(p, z, q, pb, ""@);
    lemma_pass_free(p, z, q, pc, "<"@);
    lemma_pass_free(p, z, q, pd, ">"@);
    lemma_pass_free(p, z, q, pe, "\""@);
    lemma_pass_free(p, z, q, pf, "'"@);
    lemma_pass_free(p, z, q, pg, "&"@);
    // &quot;
    lemma_pass_free(p, pe, q, pa, ""@);
    lemma_pass_free(p, pe, q, pb, ""@);
    lemma_pass_free(p, pe, q, pc, "<"@);
    lemma_pass_free(p, pe, q, pd, ">"@);
    lemma_pass_hit(p, q, pe, "\""@);
    lemma_pass_free(p, "\""@, q, pf, "'"@);
    lemma_pass_free(p, "\""@, q, pg, "&"@);
    // &#x27;
    lemma_pass_free(p, pf, q, pa, ""@);
    lemma_pass_free(p, pf, q, pb, ""@);
    lemma_pass_free(p, pf, q, pc, "<"@);
    lemma_pass_free(p, pf, q, pd, ">"@);
    lemma_not_prefix(pf + q, pe, 1);
    lemma_pass_miss(p, pf, q, pe, "\""@);
    lemma_pass_hit(p, q, pf, "'"@);
    lemma_pass_free(p, "'"@, q, pg, "&"@);
    // &amp;
    lemma_pass_free(p, pg, q, pa, ""@);
    lemma_pass_free(p, pg, q, pb, ""@);
    lemma_pass_free(p, pg, q, pc, "<"@);
    lemma_pass_free(p, pg, q, pd, ">"@);
    lemma_not_prefix(pg + q, pe, 1);
    lemma_pass_miss(p, pg, q, pe, "\""@);
    lemma_not_prefix(pg + q, pf, 1);
    lemma_pass_miss(p, pg, q, pf, "'"@);
    lemma_pass_hit(p, q, pg, "&"@);
    // \u003C
    if 12 < (pc + q).len() {
        assert((pc + q)[12] == q[6]);
    }
    lemma_not_prefix(pc + q, pa, 12);
    lemma_pass_miss(p, pc, q, pa, ""@);
    if 13 < (pc + q).len() {
        assert((pc + q)[13] == q[7]);
    }
    lemma_not_prefix(pc + q, pb, 13);
    lemma_pass_miss(p, pc, q, pb, ""@);
    lemma_pass_hit(p, q, pc, "<"@);
    lemma_pass_free(p, "<"@, q, pd, ">"@);
    lemma_pass_free(p, "<"@, q, pe, "\""@);
    lemma_pass_free(p, "<"@, q, pf, "'"@);
    lemma_pass_free(p, "<"@, q, pg, "&"@);
    // \u003E
    lemma_not_prefix(pd + q, pa, 5);
    lemma_pass_miss(p, pd, q, pa, ""@);
    lemma_not_prefix(pd + q, pb, 5);
    lemma_pass_miss(p, pd, q, pb, ""@);
    lemma_not_prefix(pd + q, pc, 5);
    lemma_pass_miss(p, pd, q, pc, "<"@);
    lemma_pass_hit(p, q, pd, ">"@);
    lemma_pass_free(p, ">"@, q, pe, "\""@);
    lemma_pass_free(p, ">"@, q, pf, "'"@);
    lemma_pass_free(p, ">"@, q, pg, "&"@);
}

} // verus!

verus! {

use crate::search::parser::base::probe_first;
use crate::search::parser::google::{google_candidate, google_link_at, google_link_probes, google_title_url_from};
use crate::search::parser::duckduckgo::{ddg_candidate, ddg_link_probes, found_node_from};

proof fn lemma_google_probe(html: Seq<char>, el: usize, k: int, j: int)
    requires
        0 <= k <= j < google_link_probes().len(),
        google_link_at(html, el, google_link_probes()[j]) is Some,
        forall|m: int| k <= m < j ==> #[trigger] google_link_at(html, el, google_link_probes()[m]) is None,
    ensures
        google_title_url_from(html, el, google_link_probes(), k) == google_link_at(html, el, google_link_probes()[j])->0,
    decreases j - k,
{
    if k < j {
        assert(google_link_at(html, el, google_link_probes()[k]) is None);
        lemma_google_probe(html, el, k + 1, j);
    }
}

/// A Google result element gives the title and link of the first link
/// selector, in the order tried, that finds a link with a non-empty trimmed
/// text and a non-empty (normalized) target: an element with such a link is
/// never dropped, and no later selector stands in for it.
pub proof fn law_google_first_working_link(html: Seq<char>, el: usize, j: int)
    requires
        0 <= j < google_link_probes().len(),
        google_link_at(html, el, google_link_probes()[j]) is Some,
        forall|m: int| 0 <= m < j ==> #[trigger] google_link_at(html, el, google_link_probes()[m]) is None,
    ensures
        google_candidate(html, el) matches Some(e) && (e.title, e.url) == google_link_at(
            html,
            el,
            google_link_probes()[j],
        )->0,
        google_link_at(html, el, google_link_probes()[j]) matches Some(tu) && tu.0.len() > 0 && tu.1.len() > 0,
{
    lemma_google_probe(html, el, 0, j);
}

proof fn lemma_ddg_probe(html: Seq<char>, el: usize, k: int, j: int)
    requires
        0 <= k <= j < ddg_link_probes().len(),
        probe_first(html, el, ddg_link_probes()[j]) is Some,
        forall|m: int| k <= m < j ==> #[trigger] probe_first(html, el, ddg_link_probes()[m]) is None,
    ensures
        found_node_from(html, el, ddg_link_probes(), k) == probe_first(html, el, ddg_link_probes()[j]),
    decreases j - k,
{
    if k < j {
        assert(probe_first(html, el, ddg_link_probes()[k]) is None);
        lemma_ddg_probe(html, el, k + 1, j);
    }
}

/// A DuckDuckGo result element is read from the link found by the first
/// link selector that finds one: with a non-empty trimmed text and a
/// non-empty target it gives a result with that title and that link made
/// absolute under `https://duckduckgo.com`; without either it gives none.
pub proof fn law_ddg_title_link(html: Seq<char>, el: usize, j: int, l: usize)
    requires
        0 <= j < ddg_link_probes().len(),
        probe_first(html, el, ddg_link_probes()[j]) == Some(l),
        forall|m: int| 0 <= m < j ==> #[trigger] probe_first(html, el, ddg_link_probes()[m]) is None,
    ensures
        ({
            let title = trim(node_text(html, l));
            let url = match node_attr(html, l, "href"@) {
                Some(h) => crate::search::parser::base::absolute_url(h, "https://duckduckgo.com"@),
                None => Seq::<char>::empty(),
            };
            &&& title.len() > 0 && url.len() > 0 ==> (ddg_candidate(html, el) matches Some(e) && e.title == title
                && e.url == url)
            &&& title.len() == 0 || url.len() == 0 ==> ddg_candidate(html, el) is None
        }),
{
    lemma_ddg_probe(html, el, 0, j);
}

} // verus!

verus! {

use crate::converter::{read_events, MdLevel};
use crate::search::parser::sogou_weixin::{is_mp_weixin, weixin_candidate};

/// No event opens a level-one heading.
pub open spec fn no_title_heading(es: Seq<MdEventView>) -> bool {
    forall|i: int| 0 <= i < es.len() ==> #[trigger] es[i] != MdEventView::Start(MdTagView::Heading(MdLevel::H1))
}

proof fn lemma_title_kept(base: Seq<MdEventView>, post: Seq<MdEventView>)
    requires
        !read_events(base).in_title,
        no_title_heading(post),
    ensures
        read_events(base + post).title == read_events(base).title,
        !read_events(base + post).in_title,
    decreases post.len(),
{
    if post.len() == 0 {
        assert(base + post =~= base);
    } else {
        let pre = post.drop_last();
        assert(no_title_heading(pre)) by {
            assert forall|i: int| 0 <= i < pre.len() implies #[trigger] pre[i] != MdEventView::Start(
                MdTagView::Heading(MdLevel::H1),
            ) by {
                assert(pre[i] == post[i]);
            }
        }
        lemma_title_kept(base, pre);
        assert((base + post).drop_last() =~= base + pre);
        assert((base + post).last() == post[post.len() - 1]);
    }
}

/// Without a level-one heading a document has no title, whatever other
/// headings it has.
pub proof fn law_document_untitled(es: Seq<MdEventView>)
    requires
        no_title_heading(es),
    ensures
        document_of_events(es).title is None,
{
    lemma_title_kept(Seq::empty(), es);
    assert(Seq::<MdEventView>::empty() + es =~= es);
}

/// The text of a level-one heading is the document's title, as long as no
/// level-one heading follows it; what comes before does not matter.
pub proof fn law_document_title(pre: Seq<MdEventView>, t: Seq<char>, post: Seq<MdEventView>)
    requires
        no_title_heading(post),
    ensures
        document_of_events(
            pre + seq![
                MdEventView::Start(MdTagView::Heading(MdLevel::H1)),
                MdEventView::Text(t),
                MdEventView::End(MdTagView::Heading(MdLevel::H1)),
            ] + post,
        ).title == Some(t),
{
    let h = seq![
        MdEventView::Start(MdTagView::Heading(MdLevel::H1)),
        MdEventView::Text(t),
        MdEventView::End(MdTagView::Heading(MdLevel::H1)),
    ];
    let b1 = pre.push(h[0]);
    let b2 = b1.push(h[1]);
    let b3 = b2.push(h[2]);
    assert(b1.drop_last() =~= pre);
    assert(b2.drop_last() =~= b1);
    assert(b3.drop_last() =~= b2);
    assert(read_events(b1).in_title);
    assert(read_events(b2).title == Some(t));
    assert(read_events(b3).title == Some(t) && !read_events(b3).in_title);
    assert(pre + h =~= b3);
    lemma_title_kept(b3, post);
}

/// An anchor whose `href` is a WeChat article address gives a result: its
/// trimmed text and the normalized address.
pub proof fn law_weixin_article_links(html: Seq<char>, n: usize, h: Seq<char>)
    requires
        node_attr(html, n, "href"@) == Some(h),
        h.len() > 0,
        is_mp_weixin(h),
        is_mp_weixin(weixin_normalized(h)),
    ensures
        weixin_candidate(html, n) matches Some(e) && e.title == trim(node_text(html, n)) && e.url == weixin_normalized(
            h,
        ),
{
    if weixin_normalized(h).len() == 0 {
        reveal_strlit("//mp.weixin.qq.com");
        assert(!has_prefix(weixin_normalized(h), "//mp.weixin.qq.com"@));
    }
}

} // verus!

verus! {

use crate::search::parser::brave::json_entry;

/// Whether a list of results holds entry `e` ranked `rank`.
pub open spec fn holds_ranked(hs: Seq<Hit>, e: Entry, rank: nat) -> bool {
    exists|k: int|
        0 <= k < hs.len() && #[trigger] hs[k] == Hit { title: e.title, url: e.url, snippet: e.snippet, rank }
}

proof fn lemma_json_keeps(rs: Seq<JsonValue>, i: int, limit: nat, acc: Seq<Hit>)
    requires
        0 <= i,
        forall|j: int|
            0 <= j < i && j < rs.len() && j < limit && #[trigger] json_entry(rs[j]) is Some ==> holds_ranked(
                acc,
                json_entry(rs[j])->0,
                (j + 1) as nat,
            ),
    ensures
        forall|j: int|
            0 <= j < rs.len() && j < limit && #[trigger] json_entry(rs[j]) is Some ==> holds_ranked(
                json_hits_from(rs, i, limit, acc),
                json_entry(rs[j])->0,
                (j + 1) as nat,
            ),
    decreases rs.len() - i,
{
    if i < rs.len() && i < limit {
        match json_entry(rs[i]) {
            Some(e) => {
                let h = Hit { title: e.title, url: e.url, snippet: e.snippet, rank: (i + 1) as nat };
                let next = acc.push(h);
                assert forall|j: int|
                    0 <= j < i + 1 && j < rs.len() && j < limit && #[trigger] json_entry(rs[j]) is Some implies holds_ranked(
                    next,
                    json_entry(rs[j])->0,
                    (j + 1) as nat,
                ) by {
                    if j == i {
                        assert(next[acc.len() as int] == h);
                    } else {
                        let e2 = json_entry(rs[j])->0;
                        let k = choose|k: int|
                            0 <= k < acc.len() && #[trigger] acc[k] == Hit {
                                title: e2.title,
                                url: e2.url,
                                snippet: e2.snippet,
                                rank: (j + 1) as nat,
                            };
                        assert(next[k] == acc[k]);
                    }
                }
                lemma_json_keeps(rs, i + 1, limit, next);
            },
            None => {
                lemma_json_keeps(rs, i + 1, limit, acc);
            },
        }
    }
}

/// Every one of the first `limit` embedded Brave results that has a title
/// and a link is among the results, ranked by its position (from 1).
pub proof fn law_brave_json_kept(rs: Seq<JsonValue>, limit: nat)
    ensures
        forall|j: int|
            0 <= j < rs.len() && j < limit && #[trigger] json_entry(rs[j]) is Some ==> holds_ranked(
                json_hits_from(rs, 0, limit, Seq::empty()),
                json_entry(rs[j])->0,
                (j + 1) as nat,
            ),
{
    lemma_json_keeps(rs, 0, limit, Seq::empty());
}

} // verus!
