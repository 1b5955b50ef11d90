//! API search: the choice of provider, with or without switching to another
//! one when a provider fails, and the reading of each service's response.
//! The requests themselves are made by the application.
use vstd::prelude::*;
use crate::config::Config;
use crate::error::TarziError;
use crate::json::{json_document, json_get, json_str, parse_json, str_member, text_member, JsonValue};
use crate::parser::engines::{same_engine, SearchEngineType};
use crate::search::types::{hits, Hit, SearchResult};
use crate::text::{append_str, has_prefix, str_eq, str_to_string, string_of, to_lowercase, unicode_lowercase};

verus! {

/// Whether a failing provider is replaced by another one.
#[derive(Debug, Clone, PartialEq, Eq, Structural)]
pub enum AutoSwitchStrategy {
    Smart,
    NoSwitch,
}

/// The strategy a name stands for: `none` (ignoring case) turns switching
/// off (`NoSwitch`), anything else is `Smart`.
pub open spec fn strategy_named(s: Seq<char>) -> AutoSwitchStrategy {
    if unicode_lowercase(s) == "none"@ {
        AutoSwitchStrategy::NoSwitch
    } else {
        AutoSwitchStrategy::Smart
    }
}

impl AutoSwitchStrategy {
    pub fn from_name(s: &str) -> (r: AutoSwitchStrategy)
        ensures
            r == strategy_named(s@),
    {
        let lower = to_lowercase(s);
        proof {
            reveal_strlit("smart");
            reveal_strlit("none");
            assert("smart"@[0] != "none"@[0]);
        }
        if str_eq(lower.as_str(), "smart") {
            AutoSwitchStrategy::Smart
        } else if str_eq(lower.as_str(), "none") {
            AutoSwitchStrategy::NoSwitch
        } else {
            AutoSwitchStrategy::Smart
        }
    }
}

impl<'a> From<&'a str> for AutoSwitchStrategy {
    fn from(s: &'a str) -> (r: AutoSwitchStrategy) {
        AutoSwitchStrategy::from_name(s)
    }
}

impl<'a> vstd::std_specs::convert::FromSpecImpl<&'a str> for AutoSwitchStrategy {
    open spec fn obeys_from_spec() -> bool {
        true
    }

    open spec fn from_spec(s: &'a str) -> AutoSwitchStrategy {
        strategy_named(s@)
    }
}

} // verus!

verus! {

/// The name of the text `format!("{:?}", s)` gives for a string: the string
/// quoted, with its special characters escaped.
pub uninterp spec fn debug_quoted(s: Seq<char>) -> Seq<char>;

/// Formats a string with `Debug`; claimed: the text is `debug_quoted`.
#[verifier::external_body]
fn quoted(s: &str) -> (r: String)
    ensures
        r@ == debug_quoted(s@),
{
    format!("{:?}", s)
}

/// The `Debug` text of an engine: its variant's name, and a custom engine's
/// name quoted in brackets.
pub open spec fn engine_debug(e: SearchEngineType) -> Seq<char> {
    match e {
        SearchEngineType::Bing => "Bing"@,
        SearchEngineType::DuckDuckGo => "DuckDuckGo"@,
        SearchEngineType::Google => "Google"@,
        SearchEngineType::BraveSearch => "BraveSearch"@,
        SearchEngineType::Baidu => "Baidu"@,
        SearchEngineType::Exa => "Exa"@,
        SearchEngineType::Travily => "Travily"@,
        SearchEngineType::GoogleSerper => "GoogleSerper"@,
        SearchEngineType::Tavily => "Tavily"@,
        SearchEngineType::SearchApi => "SearchApi"@,
        SearchEngineType::Custom(n) => "Custom("@ + debug_quoted(n@) + ")"@,
    }
}

pub fn engine_debug_text(e: &SearchEngineType) -> (r: String)
    ensures
        r@ == engine_debug(*e),
{
    match e {
        SearchEngineType::Bing => str_to_string("Bing"),
        SearchEngineType::DuckDuckGo => str_to_string("DuckDuckGo"),
        SearchEngineType::Google => str_to_string("Google"),
        SearchEngineType::BraveSearch => str_to_string("BraveSearch"),
        SearchEngineType::Baidu => str_to_string("Baidu"),
        SearchEngineType::Exa => str_to_string("Exa"),
        SearchEngineType::Travily => str_to_string("Travily"),
        SearchEngineType::GoogleSerper => str_to_string("GoogleSerper"),
        SearchEngineType::Tavily => str_to_string("Tavily"),
        SearchEngineType::SearchApi => str_to_string("SearchApi"),
        SearchEngineType::Custom(n) => {
            let mut v: Vec<char> = Vec::new();
            crate::text::append_str(&mut v, "Custom(");
            let q = quoted(n.as_str());
            crate::text::append_str(&mut v, q.as_str());
            crate::text::append_str(&mut v, ")");
            crate::text::string_of(v.as_slice())
        },
    }
}

/// Whether an engine is among a list of engines.
pub open spec fn listed(v: Seq<SearchEngineType>, e: SearchEngineType) -> bool {
    exists|i: int| 0 <= i < v.len() && same_engine(#[trigger] v[i], e)
}

/// The engines tried after the primary one fails, in order.
pub open spec fn fallback_engines() -> Seq<SearchEngineType> {
    seq![
        SearchEngineType::GoogleSerper,
        SearchEngineType::BraveSearch,
        SearchEngineType::Exa,
        SearchEngineType::Travily,
        SearchEngineType::DuckDuckGo,
    ]
}

/// The fallback engines (from the `k`-th on) that have a provider and are
/// not the primary engine.
pub open spec fn fallbacks_from(order: Seq<SearchEngineType>, k: int, registered: Seq<SearchEngineType>, primary: SearchEngineType) -> Seq<SearchEngineType>
    decreases order.len() - k,
{
    if k < 0 || k >= order.len() {
        Seq::empty()
    } else if !same_engine(order[k], primary) && listed(registered, order[k]) {
        seq![order[k]] + fallbacks_from(order, k + 1, registered, primary)
    } else {
        fallbacks_from(order, k + 1, registered, primary)
    }
}

/// The engines whose providers a search tries, in order: the primary
/// engine if it has a provider, then (with smart switching) the fallback
/// engines that have one.
pub open spec fn attempt_plan(
    strategy: AutoSwitchStrategy,
    order: Seq<SearchEngineType>,
    registered: Seq<SearchEngineType>,
    primary: SearchEngineType,
) -> Seq<SearchEngineType> {
    let first = if listed(registered, primary) { seq![primary] } else { Seq::empty() };
    match strategy {
        AutoSwitchStrategy::NoSwitch => first,
        AutoSwitchStrategy::Smart => first + fallbacks_from(order, 0, registered, primary),
    }
}

/// The error of a search in which no provider succeeded, as
/// `exhausted_error` gives it.
pub open spec fn exhausted_as(
    strategy: AutoSwitchStrategy,
    registered: Seq<SearchEngineType>,
    primary: SearchEngineType,
    last_error: Option<TarziError>,
    r: TarziError,
) -> bool {
    match strategy {
        AutoSwitchStrategy::Smart => r matches TarziError::Config(m) && m@ == "All search providers failed"@,
        AutoSwitchStrategy::NoSwitch => match last_error {
            Some(e) => if listed(registered, primary) {
                r == e
            } else {
                r matches TarziError::Config(m) && m@ == "No provider registered for "@ + engine_debug(primary)
            },
            None => r matches TarziError::Config(m) && m@ == "No provider registered for "@ + engine_debug(primary),
        },
    }
}

/// What has happened so far in an API search.
pub enum ApiEvent {
    /// Nothing yet.
    Begin,
    /// The provider at this position of the attempt plan answered.
    Answered(usize, Result<Vec<SearchResult>, TarziError>),
}

/// What to do next in an API search.
pub enum ApiStep {
    /// Ask the provider of this engine, at this position of the plan.
    Try(usize, SearchEngineType),
    /// The search's answer.
    Finish(Result<Vec<SearchResult>, TarziError>),
}

/// Chooses among API search providers: which engines have a provider, and
/// whether and in which order other providers are tried when one fails.
pub struct ApiSearchManager {
    providers: Vec<SearchEngineType>,
    autoswitch_strategy: AutoSwitchStrategy,
    fallback_order: Vec<SearchEngineType>,
}

impl ApiSearchManager {
    /// The engines that have a provider.
    pub closed spec fn registered(&self) -> Seq<SearchEngineType> {
        self.providers@
    }

    pub closed spec fn strategy(&self) -> AutoSwitchStrategy {
        self.autoswitch_strategy
    }

    pub closed spec fn order(&self) -> Seq<SearchEngineType> {
        self.fallback_order@
    }

    pub fn new(autoswitch_strategy: AutoSwitchStrategy) -> (r: ApiSearchManager)
        ensures
            r.registered().len() == 0,
            r.strategy() == autoswitch_strategy,
            r.order() == fallback_engines(),
    {
        let fallback_order = vec![
            SearchEngineType::GoogleSerper,
            SearchEngineType::BraveSearch,
            SearchEngineType::Exa,
            SearchEngineType::Travily,
            SearchEngineType::DuckDuckGo,
        ];
        assert(fallback_order@ =~= fallback_engines());
        ApiSearchManager { providers: Vec::new(), autoswitch_strategy, fallback_order }
    }

    /// Whether an engine has a provider.
    pub fn has_provider(&self, engine_type: &SearchEngineType) -> (r: bool)
        ensures
            r == listed(self.registered(), *engine_type),
    {
        let mut i: usize = 0;
        while i < self.providers.len()
            invariant
                i <= self.providers@.len(),
                forall|j: int| 0 <= j < i ==> !same_engine(#[trigger] self.providers@[j], *engine_type),
            decreases self.providers.len() - i,
        {
            if self.providers[i].same_as(engine_type) {
                return true;
            }
            i = i + 1;
        }
        false
    }

    /// Records that an engine has a provider (a later registration for the
    /// same engine replaces the earlier provider).
    pub fn register_provider(&mut self, engine_type: SearchEngineType)
        ensures
            forall|e: SearchEngineType| listed(final(self).registered(), e) <==> (listed(old(self).registered(), e) || same_engine(engine_type, e)),
            final(self).strategy() == old(self).strategy(),
            final(self).order() == old(self).order(),
    {
        if self.has_provider(&engine_type) {
            proof {
                assert forall|e: SearchEngineType| same_engine(engine_type, e) implies listed(self.registered(), e) by {
                    let k = choose|k: int| 0 <= k < self.providers@.len() && same_engine(#[trigger] self.providers@[k], engine_type);
                    lemma_same_engine_trans(self.providers@[k], engine_type, e);
                }
            }
            return;
        }
        let ghost before = self.providers@;
        self.providers.push(engine_type);
        proof {
            let after = self.providers@;
            assert forall|e: SearchEngineType| listed(after, e) <==> (listed(before, e) || same_engine(after[before.len() as int], e)) by {
                if listed(after, e) {
                    let k = choose|k: int| 0 <= k < after.len() && same_engine(#[trigger] after[k], e);
                    if k < before.len() {
                        assert(before[k] == after[k]);
                    }
                }
                if listed(before, e) {
                    let k = choose|k: int| 0 <= k < before.len() && same_engine(#[trigger] before[k], e);
                    assert(after[k] == before[k]);
                }
                if same_engine(after[before.len() as int], e) {
                    assert(same_engine(after[before.len() as int], e));
                }
            }
        }
    }

    /// The engines whose providers a search for `primary` tries, in order.
    pub fn attempt_order(&self, primary: &SearchEngineType) -> (r: Vec<SearchEngineType>)
        ensures
            r@ == attempt_plan(self.strategy(), self.order(), self.registered(), *primary),
    {
        let mut out: Vec<SearchEngineType> = Vec::new();
        if self.has_provider(primary) {
            out.push(primary.cloned());
        }
        match self.autoswitch_strategy {
            AutoSwitchStrategy::NoSwitch => {
                assert(out@ =~= attempt_plan(self.strategy(), self.order(), self.registered(), *primary));
                return out;
            },
            AutoSwitchStrategy::Smart => {},
        }
        let ghost first = out@;
        let ghost order = self.fallback_order@;
        let mut k: usize = self.fallback_order.len();
        let mut tail: Vec<SearchEngineType> = Vec::new();
        while k > 0
            invariant
                k <= order.len(),
                order == self.fallback_order@,
                tail@ == fallbacks_from(order, k as int, self.registered(), *primary),
            decreases k,
        {
            k = k - 1;
            let e = &self.fallback_order[k];
            if !e.same_as(primary) && self.has_provider(e) {
                let ghost rest = tail@;
                let mut next: Vec<SearchEngineType> = Vec::new();
                next.push(e.cloned());
                let mut j: usize = 0;
                while j < tail.len()
                    invariant
                        j <= tail@.len(),
                        next@ == seq![order[k as int]] + tail@.subrange(0, j as int),
                    decreases tail.len() - j,
                {
                    next.push(tail[j].cloned());
                    j = j + 1;
                    assert(next@ =~= seq![order[k as int]] + tail@.subrange(0, j as int));
                }
                assert(tail@.subrange(0, j as int) =~= tail@);
                tail = next;
            }
        }
        let mut i: usize = 0;
        let ghost fb = tail@;
        while i < tail.len()
            invariant
                i <= fb.len(),
                fb == tail@,
                out@ == first + fb.subrange(0, i as int),
            decreases tail.len() - i,
        {
            out.push(tail[i].cloned());
            i = i + 1;
            assert(out@ =~= first + fb.subrange(0, i as int));
        }
        assert(fb.subrange(0, i as int) =~= fb);
        out
    }

    /// The error of a search in which no provider succeeded. Without
    /// switching, a primary engine without a provider is a configuration
    /// error and otherwise the provider's own error stands; with smart
    /// switching the search reports that all providers failed.
    pub fn exhausted_error(&self, primary: &SearchEngineType, last_error: Option<TarziError>) -> (r: TarziError)
        ensures
            exhausted_as(self.strategy(), self.registered(), *primary, last_error, r),
    {
        match self.autoswitch_strategy {
            AutoSwitchStrategy::Smart => TarziError::Config(str_to_string("All search providers failed")),
            AutoSwitchStrategy::NoSwitch => {
                let registered = self.has_provider(primary);
                match last_error {
                    Some(e) => if registered {
                        return e;
                    },
                    None => {},
                }
                let mut v: Vec<char> = Vec::new();
                crate::text::append_str(&mut v, "No provider registered for ");
                let d = engine_debug_text(primary);
                crate::text::append_str(&mut v, d.as_str());
                TarziError::Config(crate::text::string_of(v.as_slice()))
            },
        }
    }

    /// The next step of a search for `primary`: the providers of the attempt
    /// plan are asked in turn; the first answer with results is the search's
    /// answer, and when every one has failed (or there is none) the search
    /// ends with the error `exhausted_error` gives.
    pub fn next_step(&self, primary: &SearchEngineType, event: ApiEvent) -> (r: ApiStep)
        ensures
            ({
                let plan = attempt_plan(self.strategy(), self.order(), self.registered(), *primary);
                match event {
                    ApiEvent::Begin => if plan.len() > 0 {
                        r matches ApiStep::Try(k, e) && k == 0 && e == plan[0]
                    } else {
                        r matches ApiStep::Finish(Err(x)) && exhausted_as(
                            self.strategy(),
                            self.registered(),
                            *primary,
                            None,
                            x,
                        )
                    },
                    ApiEvent::Answered(i, Ok(v)) => r matches ApiStep::Finish(Ok(w)) && w@ == v@,
                    ApiEvent::Answered(i, Err(err)) => if i + 1 < plan.len() {
                        r matches ApiStep::Try(k, e) && k == i + 1 && e == plan[i + 1]
                    } else {
                        r matches ApiStep::Finish(Err(x)) && exhausted_as(
                            self.strategy(),
                            self.registered(),
                            *primary,
                            Some(err),
                            x,
                        )
                    },
                }
            }),
    {
        let plan = self.attempt_order(primary);
        match event {
            ApiEvent::Begin => {
                if plan.len() > 0 {
                    ApiStep::Try(0, plan[0].cloned())
                } else {
                    ApiStep::Finish(Err(self.exhausted_error(primary, None)))
                }
            },
            ApiEvent::Answered(i, Ok(v)) => ApiStep::Finish(Ok(v)),
            ApiEvent::Answered(i, Err(err)) => {
                if i < plan.len() && i + 1 < plan.len() {
                    ApiStep::Try(i + 1, plan[i + 1].cloned())
                } else {
                    ApiStep::Finish(Err(self.exhausted_error(primary, Some(err))))
                }
            },
        }
    }
}

/// Engine sameness is transitive.
pub proof fn lemma_same_engine_trans(a: SearchEngineType, b: SearchEngineType, c: SearchEngineType)
    requires
        same_engine(a, b),
        same_engine(b, c),
    ensures
        same_engine(a, c),
{
}

} // verus!

verus! {

/// One response entry read as a result: the string members `title` and
/// `url` are required; the snippet member is required or optional (then
/// empty when missing), and cut to its first `cap` characters when there is
/// a cap.
pub open spec fn provider_hit(
    v: JsonValue,
    keys: (Seq<char>, Seq<char>, Seq<char>),
    snippet_required: bool,
    cap: Option<nat>,
    rank: nat,
) -> Option<Hit> {
    match (str_member(v, keys.0), str_member(v, keys.1)) {
        (Some(t), Some(u)) => {
            let s = match str_member(v, keys.2) {
                Some(s) => Some(s),
                None => if snippet_required { None } else { Some(Seq::<char>::empty()) },
            };
            match s {
                Some(s) => Some(Hit { title: t, url: u, snippet: capped(s, cap), rank }),
                None => None,
            }
        },
        _ => None,
    }
}

/// The first `cap` characters, when there is a cap.
pub open spec fn capped(s: Seq<char>, cap: Option<nat>) -> Seq<char> {
    match cap {
        Some(n) => if s.len() <= n { s } else { s.take(n as int) },
        None => s,
    }
}

/// The entries from position `i` on read as results, each ranked by its
/// position counted from 1.
pub open spec fn provider_hits_from(
    entries: Seq<JsonValue>,
    i: int,
    keys: (Seq<char>, Seq<char>, Seq<char>),
    snippet_required: bool,
    cap: Option<nat>,
    acc: Seq<Hit>,
) -> Seq<Hit>
    decreases entries.len() - i,
{
    if i < 0 || i >= entries.len() {
        acc
    } else {
        match provider_hit(entries[i], keys, snippet_required, cap, (i + 1) as nat) {
            Some(h) => provider_hits_from(entries, i + 1, keys, snippet_required, cap, acc.push(h)),
            None => provider_hits_from(entries, i + 1, keys, snippet_required, cap, acc),
        }
    }
}

/// The list a response keeps its entries in: the array at the end of a
/// path of member names, or nothing.
pub open spec fn response_list(data: JsonValue, path: Seq<Seq<char>>) -> Seq<JsonValue>
    decreases path.len(),
{
    if path.len() == 0 {
        match data {
            JsonValue::Array(a) => a@,
            _ => Seq::empty(),
        }
    } else {
        match json_get(data, path[0]) {
            Some(m) => response_list(m, path.drop_first()),
            None => Seq::empty(),
        }
    }
}

/// The first `n` characters of a text.
fn first_chars(s: &str, n: usize) -> (r: String)
    ensures
        r@ == capped(s@, Some(n as nat)),
{
    let c = crate::text::chars_of(s);
    if c.len() <= n {
        str_to_string(s)
    } else {
        let part = crate::text::slice_chars(c.as_slice(), 0, n);
        crate::text::string_of(part.as_slice())
    }
}

/// Reads response entries as results, as `provider_hits_from` describes.
pub fn read_entries(
    entries: &Vec<JsonValue>,
    title_key: &str,
    url_key: &str,
    snippet_key: &str,
    snippet_required: bool,
    cap: Option<usize>,
) -> (r: Vec<SearchResult>)
    ensures
        hits(r@) == provider_hits_from(
            entries@,
            0,
            (title_key@, url_key@, snippet_key@),
            snippet_required,
            match cap {
                Some(n) => Some(n as nat),
                None => None,
            },
            Seq::empty(),
        ),
{
    let ghost keys = (title_key@, url_key@, snippet_key@);
    let ghost c = match cap {
        Some(n) => Some(n as nat),
        None => None,
    };
    let mut results: Vec<SearchResult> = Vec::new();
    assert(hits(results@) =~= Seq::<Hit>::empty());
    let mut i: usize = 0;
    while i < entries.len()
        invariant
            i <= entries@.len(),
            keys == (title_key@, url_key@, snippet_key@),
            c == (match cap {
                Some(n) => Some(n as nat),
                None => None,
            }),
            provider_hits_from(entries@, 0, keys, snippet_required, c, Seq::empty()) == provider_hits_from(
                entries@,
                i as int,
                keys,
                snippet_required,
                c,
                hits(results@),
            ),
        decreases entries.len() - i,
    {
        let e = &entries[i];
        let title = e.str_member(title_key);
        let url = e.str_member(url_key);
        if title.is_some() && url.is_some() {
            let raw: Option<String> = match e.str_member(snippet_key) {
                Some(s) => Some(s.clone()),
                None => if snippet_required {
                    None
                } else {
                    Some(String::new())
                },
            };
            match raw {
                Some(s) => {
                    let snippet = match cap {
                        Some(n) => first_chars(s.as_str(), n),
                        None => s,
                    };
                    let item = SearchResult {
                        title: title.unwrap().clone(),
                        url: url.unwrap().clone(),
                        snippet,
                        rank: i + 1,
                    };
                    let ghost before = hits(results@);
                    let ghost h = item@;
                    assert(provider_hit(entries@[i as int], keys, snippet_required, c, (i + 1) as nat) == Some(h));
                    results.push(item);
                    assert(hits(results@) =~= before.push(h));
                },
                None => {},
            }
        }
        i = i + 1;
    }
    results
}

/// The array at the end of a path of member names, if there is one.
fn list_at<'a>(data: &'a JsonValue, first: &str, second: Option<&str>) -> (r: Option<&'a Vec<JsonValue>>)
    ensures
        match r {
            Some(a) => a@ == response_list(*data, match second {
                Some(s) => seq![first@, s@],
                None => seq![first@],
            }),
            None => response_list(*data, match second {
                Some(s) => seq![first@, s@],
                None => seq![first@],
            }) == Seq::<JsonValue>::empty(),
        },
{
    let ghost path = match second {
        Some(s) => seq![first@, s@],
        None => seq![first@],
    };
    proof {
        reveal_with_fuel(response_list, 3);
    }
    assert(path.drop_first() =~= match second {
        Some(s) => seq![s@],
        None => Seq::<Seq<char>>::empty(),
    });
    match data.get(first) {
        None => None,
        Some(m) => match second {
            None => match m {
                JsonValue::Array(a) => Some(a),
                _ => None,
            },
            Some(s) => {
                assert(seq![s@].drop_first() =~= Seq::<Seq<char>>::empty());
                match m.get(s) {
                    None => None,
                    Some(x) => match x {
                        JsonValue::Array(a) => Some(a),
                        _ => None,
                    },
                }
            },
        },
    }
}

/// Results of a Brave Search API response: `web.results`, each with string
/// `title`, `url` and `description`.
pub fn parse_brave_response(data: &JsonValue) -> (r: Vec<SearchResult>)
    ensures
        hits(r@) == provider_hits_from(
            response_list(*data, seq!["web"@, "results"@]),
            0,
            ("title"@, "url"@, "description"@),
            true,
            None,
            Seq::empty(),
        ),
{
    match list_at(data, "web", Some("results")) {
        Some(a) => read_entries(a, "title", "url", "description", true, None),
        None => Vec::new(),
    }
}

/// Results of a Serper API response: `organic`, each with string `title`,
/// `link` and `snippet`.
pub fn parse_serper_response(data: &JsonValue) -> (r: Vec<SearchResult>)
    ensures
        hits(r@) == provider_hits_from(
            response_list(*data, seq!["organic"@]),
            0,
            ("title"@, "link"@, "snippet"@),
            true,
            None,
            Seq::empty(),
        ),
{
    match list_at(data, "organic", None) {
        Some(a) => read_entries(a, "title", "link", "snippet", true, None),
        None => Vec::new(),
    }
}

/// Results of an Exa API response: `results`, each with string `title` and
/// `url`; the snippet is the first 200 characters of `text`, if any.
pub fn parse_exa_response(data: &JsonValue) -> (r: Vec<SearchResult>)
    ensures
        hits(r@) == provider_hits_from(
            response_list(*data, seq!["results"@]),
            0,
            ("title"@, "url"@, "text"@),
            false,
            Some(200),
            Seq::empty(),
        ),
{
    match list_at(data, "results", None) {
        Some(a) => read_entries(a, "title", "url", "text", false, Some(200)),
        None => Vec::new(),
    }
}

/// Results of a Travily API response: `results`, each with string `title`,
/// `url` and `content`; the snippet is the first 200 characters of the
/// content.
pub fn parse_travily_response(data: &JsonValue) -> (r: Vec<SearchResult>)
    ensures
        hits(r@) == provider_hits_from(
            response_list(*data, seq!["results"@]),
            0,
            ("title"@, "url"@, "content"@),
            true,
            Some(200),
            Seq::empty(),
        ),
{
    match list_at(data, "results", None) {
        Some(a) => read_entries(a, "title", "url", "content", true, Some(200)),
        None => Vec::new(),
    }
}

/// The search services whose API answers the library reads.
#[derive(Debug, Clone, Copy, PartialEq, Eq, Structural)]
pub enum ApiService {
    Brave,
    Serper,
    Exa,
    Travily,
}

/// The service's name in error messages.
pub open spec fn service_label(s: ApiService) -> Seq<char> {
    match s {
        ApiService::Brave => "Brave"@,
        ApiService::Serper => "Google Serper"@,
        ApiService::Exa => "Exa"@,
        ApiService::Travily => "Travily"@,
    }
}

/// The results in a service's answer, read as `parse_*_response` reads them.
pub open spec fn service_hits(s: ApiService, data: JsonValue) -> Seq<Hit> {
    match s {
        ApiService::Brave => provider_hits_from(
            response_list(data, seq!["web"@, "results"@]),
            0,
            ("title"@, "url"@, "description"@),
            true,
            None,
            Seq::empty(),
        ),
        ApiService::Serper => provider_hits_from(
            response_list(data, seq!["organic"@]),
            0,
            ("title"@, "link"@, "snippet"@),
            true,
            None,
            Seq::empty(),
        ),
        ApiService::Exa => provider_hits_from(
            response_list(data, seq!["results"@]),
            0,
            ("title"@, "url"@, "text"@),
            false,
            Some(200),
            Seq::empty(),
        ),
        ApiService::Travily => provider_hits_from(
            response_list(data, seq!["results"@]),
            0,
            ("title"@, "url"@, "content"@),
            true,
            Some(200),
            Seq::empty(),
        ),
    }
}

impl ApiService {
    /// The provider's name.
    pub fn provider_name(&self) -> (r: &'static str)
        ensures
            r@ == match *self {
                ApiService::Brave => "Brave Search API"@,
                ApiService::Serper => "Google Serper API"@,
                ApiService::Exa => "Exa Search API"@,
                ApiService::Travily => "Travily Search API"@,
            },
    {
        match self {
            ApiService::Brave => "Brave Search API",
            ApiService::Serper => "Google Serper API",
            ApiService::Exa => "Exa Search API",
            ApiService::Travily => "Travily Search API",
        }
    }

    fn label(&self) -> (r: &'static str)
        ensures
            r@ == service_label(*self),
    {
        match self {
            ApiService::Brave => "Brave",
            ApiService::Serper => "Google Serper",
            ApiService::Exa => "Exa",
            ApiService::Travily => "Travily",
        }
    }

    /// The results in an answer already read as JSON.
    pub fn results(&self, data: &JsonValue) -> (r: Vec<SearchResult>)
        ensures
            hits(r@) == service_hits(*self, *data),
    {
        match self {
            ApiService::Brave => parse_brave_response(data),
            ApiService::Serper => parse_serper_response(data),
            ApiService::Exa => parse_exa_response(data),
            ApiService::Travily => parse_travily_response(data),
        }
    }

    /// The error of an answer that could not be read.
    pub fn parse_error(&self, detail: &str) -> (r: TarziError)
        ensures
            r matches TarziError::Parse(m) && m@ == "Failed to parse "@ + service_label(*self) + " API response: "@
                + detail@,
    {
        let mut t: Vec<char> = Vec::new();
        append_str(&mut t, "Failed to parse ");
        append_str(&mut t, self.label());
        append_str(&mut t, " API response: ");
        append_str(&mut t, detail);
        TarziError::Parse(string_of(t.as_slice()))
    }

    /// Reads an answer's body: its results when it is JSON, else a parse
    /// error naming the service.
    pub fn results_from_body(&self, body: &str) -> (r: Result<Vec<SearchResult>, TarziError>)
        ensures
            match json_document(body@) {
                Some(v) => r matches Ok(rs) && hits(rs@) == service_hits(*self, v),
                None => r matches Err(TarziError::Parse(m)) && has_prefix(
                    m@,
                    "Failed to parse "@ + service_label(*self) + " API response: "@,
                ),
            },
    {
        match parse_json(body) {
            Ok(v) => Ok(self.results(&v)),
            Err(e) => {
                let r = self.parse_error(e.as_str());
                proof {
                    let head = "Failed to parse "@ + service_label(*self) + " API response: "@;
                    assert(r->Parse_0@.subrange(0, head.len() as int) =~= head);
                }
                Err(r)
            },
        }
    }

    /// The error of a request that could not be made.
    pub fn request_error(&self, detail: &str) -> (r: TarziError)
        ensures
            r matches TarziError::Network(m) && m@ == service_label(*self) + " API request failed: "@ + detail@,
    {
        let mut t: Vec<char> = Vec::new();
        append_str(&mut t, self.label());
        append_str(&mut t, " API request failed: ");
        append_str(&mut t, detail);
        TarziError::Network(string_of(t.as_slice()))
    }

    /// The error of an answer with a failure status.
    pub fn status_error(&self, status: &str) -> (r: TarziError)
        ensures
            r matches TarziError::Network(m) && m@ == service_label(*self) + " API returned status: "@ + status@,
    {
        let mut t: Vec<char> = Vec::new();
        append_str(&mut t, self.label());
        append_str(&mut t, " API returned status: ");
        append_str(&mut t, status);
        TarziError::Network(string_of(t.as_slice()))
    }
}

/// A service the configuration gives a key for, as (engine, service, key).
pub open spec fn keyed(key: Option<String>, e: SearchEngineType, s: ApiService) -> Seq<(SearchEngineType, ApiService, Seq<char>)> {
    match key {
        Some(k) => seq![(e, s, k@)],
        None => Seq::empty(),
    }
}

/// The services a configuration gives keys for, in the order Brave, Serper,
/// Exa, Travily.
pub open spec fn keyed_services(c: Config) -> Seq<(SearchEngineType, ApiService, Seq<char>)> {
    keyed(c.search.brave_api_key, SearchEngineType::BraveSearch, ApiService::Brave)
        + keyed(c.search.google_serper_api_key, SearchEngineType::GoogleSerper, ApiService::Serper)
        + keyed(c.search.exa_api_key, SearchEngineType::Exa, ApiService::Exa)
        + keyed(c.search.travily_api_key, SearchEngineType::Travily, ApiService::Travily)
}

pub open spec fn service_views(v: Seq<(SearchEngineType, ApiService, String)>) -> Seq<(SearchEngineType, ApiService, Seq<char>)> {
    v.map_values(|t: (SearchEngineType, ApiService, String)| (t.0, t.1, t.2@))
}

fn push_keyed(
    out: &mut Vec<(SearchEngineType, ApiService, String)>,
    key: &Option<String>,
    e: SearchEngineType,
    s: ApiService,
)
    ensures
        service_views(final(out)@) == service_views(old(out)@) + keyed(*key, e, s),
{
    match key {
        Some(k) => {
            let ghost before = service_views(out@);
            out.push((e, s, k.clone()));
            assert(service_views(out@) =~= before + keyed(*key, e, s));
        },
        None => {
            assert(service_views(out@) =~= service_views(out@) + keyed(*key, e, s));
        },
    }
}

/// The API services to search with: those the configuration gives a key
/// for, each with its engine and key.
pub fn configured_services(config: &Config) -> (r: Vec<(SearchEngineType, ApiService, String)>)
    ensures
        service_views(r@) == keyed_services(*config),
{
    let mut out: Vec<(SearchEngineType, ApiService, String)> = Vec::new();
    assert(service_views(out@) =~= Seq::empty());
    push_keyed(&mut out, &config.search.brave_api_key, SearchEngineType::BraveSearch, ApiService::Brave);
    push_keyed(&mut out, &config.search.google_serper_api_key, SearchEngineType::GoogleSerper, ApiService::Serper);
    push_keyed(&mut out, &config.search.exa_api_key, SearchEngineType::Exa, ApiService::Exa);
    push_keyed(&mut out, &config.search.travily_api_key, SearchEngineType::Travily, ApiService::Travily);
    assert(service_views(out@) =~= keyed_services(*config));
    out
}

} // verus!
