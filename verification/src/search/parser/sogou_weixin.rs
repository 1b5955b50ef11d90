//! Parser for Sogou's WeChat article search: collects links to
//! `mp.weixin.qq.com` articles, following Sogou's redirect links.
use vstd::prelude::*;
use crate::search::parser::parse_outcome;
use crate::error::TarziError;
use crate::html::{attr_of, document_find, find_all, node_attr, node_text, trimmed_text, HtmlPage, Selector};
use crate::search::parser::base::{entries, entry_of, gather, gather_hits, BaseParser, BaseParserImpl, Candidate, Entry};
use crate::search::types::{hits, Hit, SearchEngineType, SearchResult};
use crate::text::{
    chars_of, concat2, has_infix, occurs_at, has_prefix, lemma_next_occurrence_range, next_match, next_occurrence,
    slice_chars, str_contains, str_eq, str_starts_with, str_to_string, string_of, trim, trimmed,
};
use crate::urls::{
    host_of, no_percent_sign, pair_views, path_of, percent_decode, percent_decoded, query_pairs_of,
    url_host, url_path, url_query_pairs,
};

verus! {

pub struct SogouWeixinParser {
    base: BaseParserImpl,
}

impl View for SogouWeixinParser {
    type V = (Seq<char>, SearchEngineType);

    closed spec fn view(&self) -> (Seq<char>, SearchEngineType) {
        self.base@
    }
}

/// A link into WeChat's article host: protocol-relative, or an address whose
/// host is `mp.weixin.qq.com`.
pub open spec fn is_mp_weixin(u: Seq<char>) -> bool {
    has_prefix(u, "//mp.weixin.qq.com"@) || url_host(u) == Some(Some("mp.weixin.qq.com"@))
}

/// A Sogou redirect link: relative `/link?..`, or an address on
/// `weixin.sogou.com` whose path starts with `/link`.
pub open spec fn is_sogou_redirect(u: Seq<char>) -> bool {
    ||| has_prefix(u, "/link?"@)
    ||| url_host(u) == Some(Some("weixin.sogou.com"@)) && (url_path(u) matches Some(p) && has_prefix(p, "/link"@))
}

/// A link made absolute where its form tells the host.
pub open spec fn weixin_normalized(href: Seq<char>) -> Seq<char> {
    if has_prefix(href, "http://"@) || has_prefix(href, "https://"@) {
        href
    } else if has_prefix(href, "//"@) {
        "https:"@ + href
    } else if has_prefix(href, "/link?"@) {
        "https://weixin.sogou.com"@ + href
    } else if has_prefix(href, "/"@) {
        if has_infix(href, "mp.weixin.qq.com"@) {
            "https://mp.weixin.qq.com"@ + href
        } else if has_infix(href, "weixin.sogou.com"@) {
            "https://weixin.sogou.com"@ + href
        } else {
            href
        }
    } else {
        href
    }
}

/// A text percent-decoded, or unchanged where decoding fails.
pub open spec fn decoded_or_same(v: Seq<char>) -> Seq<char> {
    match percent_decoded(v) {
        Some(d) => d,
        None => v,
    }
}

/// The value of the first `url=` parameter in a raw address (up to the next
/// `&`), percent-decoded where that succeeds.
pub open spec fn url_param(raw: Seq<char>) -> Option<Seq<char>> {
    match next_occurrence(raw, "url="@, 0) {
        None => None,
        Some(pos) => {
            let rest = raw.subrange(pos + 4, raw.len() as int);
            let value = match next_occurrence(rest, "&"@, 0) {
                Some(e) => rest.subrange(0, e),
                None => rest,
            };
            Some(decoded_or_same(value))
        },
    }
}

/// The first query pair (from the `k`-th on) named `url` whose value, decoded
/// once more, is an article link; that decoded value.
pub open spec fn first_mp_query_value(pairs: Seq<(Seq<char>, Seq<char>)>, k: int) -> Option<Seq<char>>
    decreases pairs.len() - k,
{
    if k < 0 || k >= pairs.len() {
        None
    } else if pairs[k].0 == "url"@ && is_mp_weixin(decoded_or_same(pairs[k].1)) {
        Some(decoded_or_same(pairs[k].1))
    } else {
        first_mp_query_value(pairs, k + 1)
    }
}

/// The article a link leads to: an article link itself, or the article
/// named in a Sogou redirect link's `url` parameter; any other link is kept.
pub open spec fn weixin_resolved(href: Seq<char>) -> Seq<char> {
    if is_mp_weixin(href) {
        href
    } else if has_infix(href, "weixin.sogou.com/link"@) || has_prefix(href, "/link?"@) {
        let abs = if has_prefix(href, "/link?"@) {
            "https://weixin.sogou.com"@ + href
        } else {
            href
        };
        let from_query = match url_query_pairs(abs) {
            Some(ps) => first_mp_query_value(ps, 0),
            None => None,
        };
        match from_query {
            Some(c) => c,
            None => match url_param(abs) {
                Some(d) => if is_mp_weixin(d) {
                    d
                } else {
                    href
                },
                None => href,
            },
        }
    } else {
        href
    }
}

/// The attributes that may carry the link of an anchor without `href`.
pub open spec fn data_link_attrs() -> Seq<Seq<char>> {
    seq!["data-share"@, "data-url"@, "data-href"@, "data-shareurl"@, "data-link"@]
}

/// The first non-empty one of those attributes (from the `k`-th on).
pub open spec fn data_link_from(html: Seq<char>, n: usize, k: int) -> Option<Seq<char>>
    decreases 5 - k,
{
    if k < 0 || k >= 5 {
        None
    } else {
        match node_attr(html, n, data_link_attrs()[k]) {
            Some(v) => if v.len() > 0 {
                Some(v)
            } else {
                data_link_from(html, n, k + 1)
            },
            None => data_link_from(html, n, k + 1),
        }
    }
}

/// What one anchor yields: its trimmed text and the article its link leads
/// to. An anchor with `href` may also lead to a Sogou redirect; one without
/// (using a data attribute) must lead to an article.
pub open spec fn weixin_candidate(html: Seq<char>, n: usize) -> Option<Entry> {
    let title = trim(node_text(html, n));
    match node_attr(html, n, "href"@) {
        None => match data_link_from(html, n, 0) {
            None => None,
            Some(c) => {
                let u = weixin_normalized(weixin_resolved(c));
                if is_mp_weixin(u) && u.len() > 0 {
                    Some(Entry { title, url: u, snippet: Seq::empty() })
                } else {
                    None
                }
            },
        },
        Some(h) => if h.len() == 0 {
            None
        } else {
            let u = weixin_normalized(weixin_resolved(h));
            if (is_mp_weixin(u) || is_sogou_redirect(u)) && u.len() > 0 {
                Some(Entry { title, url: u, snippet: Seq::empty() })
            } else {
                None
            }
        },
    }
}

pub open spec fn weixin_candidates(html: Seq<char>) -> Seq<Option<Entry>> {
    document_find(html, Selector::Name, "a"@, Seq::empty()).map_values(|n: usize| weixin_candidate(html, n))
}

/// The anchors' results: the first of each link, at most `limit`, ranked
/// from 1.
pub open spec fn weixin_results(html: Seq<char>, limit: nat) -> Seq<Hit> {
    gather(weixin_candidates(html), limit, true)
}

/// A page that Sogou shows instead of results to a suspected robot.
pub open spec fn is_captcha_page(html: Seq<char>) -> bool {
    has_infix(html, "此验证码用于确认"@) || has_infix(html, "验证码："@) || has_infix(html, "VerifyCode"@)
}

pub open spec fn captcha_message() -> Seq<char> {
    "Sogou WeChat search detected automated request and is showing CAPTCHA page. This is a common anti-bot measure. Try accessing the site manually first or use a different search engine."@
}

/// Whether a link is a WeChat article link.
pub fn is_mp_weixin_url(url_str: &str) -> (r: bool)
    ensures
        r == is_mp_weixin(url_str@),
{
    if str_starts_with(url_str, "//mp.weixin.qq.com") {
        return true;
    }
    match host_of(url_str) {
        Some(Some(h)) => str_eq(h.as_str(), "mp.weixin.qq.com"),
        _ => false,
    }
}

/// Whether a link is a Sogou redirect link.
pub fn is_sogou_weixin_redirect_url(url_str: &str) -> (r: bool)
    ensures
        r == is_sogou_redirect(url_str@),
{
    if str_starts_with(url_str, "/link?") {
        return true;
    }
    match host_of(url_str) {
        Some(Some(h)) => if str_eq(h.as_str(), "weixin.sogou.com") {
            match path_of(url_str) {
                Some(p) => str_starts_with(p.as_str(), "/link"),
                None => false,
            }
        } else {
            false
        },
        _ => false,
    }
}

/// Makes a link absolute where its form tells the host.
pub fn normalize_url(href: &str) -> (r: String)
    ensures
        r@ == weixin_normalized(href@),
{
    if str_starts_with(href, "http://") || str_starts_with(href, "https://") {
        str_to_string(href)
    } else if str_starts_with(href, "//") {
        concat2("https:", href)
    } else if str_starts_with(href, "/link?") {
        concat2("https://weixin.sogou.com", href)
    } else if str_starts_with(href, "/") {
        if str_contains(href, "mp.weixin.qq.com") {
            concat2("https://mp.weixin.qq.com", href)
        } else if str_contains(href, "weixin.sogou.com") {
            concat2("https://weixin.sogou.com", href)
        } else {
            str_to_string(href)
        }
    } else {
        str_to_string(href)
    }
}

/// A text percent-decoded, or unchanged where decoding fails.
fn decode_or_keep(v: &str) -> (r: String)
    ensures
        r@ == decoded_or_same(v@),
{
    match percent_decode(v) {
        Some(d) => d,
        None => str_to_string(v),
    }
}

/// The value of the first `url=` parameter of a raw address.
pub fn extract_url_param(raw: &str) -> (r: Option<String>)
    ensures
        match url_param(raw@) {
            Some(v) => r matches Some(x) && x@ == v,
            None => r is None,
        },
{
    let rc = chars_of(raw);
    let key = chars_of("url=");
    let pos = match next_match(rc.as_slice(), key.as_slice(), 0) {
        None => {
            return None;
        },
        Some(p) => p,
    };
    proof {
        lemma_next_occurrence_range(rc@, key@, 0);
        reveal_strlit("url=");
        assert(key@.len() == 4);
        assert(occurs_at(rc@, key@, pos as int));
    }
    let n = rc.len();
    let rest = slice_chars(rc.as_slice(), pos + 4, n);
    let amp = chars_of("&");
    let value = match next_match(rest.as_slice(), amp.as_slice(), 0) {
        Some(e) => {
            proof {
                lemma_next_occurrence_range(rest@, amp@, 0);
            }
            slice_chars(rest.as_slice(), 0, e)
        },
        None => rest,
    };
    let vs = string_of(value.as_slice());
    Some(decode_or_keep(vs.as_str()))
}

/// The article a link leads to, following Sogou's redirect links.
pub fn resolve_weixin_url(href: &str) -> (r: String)
    ensures
        r@ == weixin_resolved(href@),
{
    if is_mp_weixin_url(href) {
        return str_to_string(href);
    }
    if str_contains(href, "weixin.sogou.com/link") || str_starts_with(href, "/link?") {
        let absolute = if str_starts_with(href, "/link?") {
            concat2("https://weixin.sogou.com", href)
        } else {
            str_to_string(href)
        };
        match query_pairs_of(absolute.as_str()) {
            Some(pairs) => {
                let ghost ps = pair_views(pairs@);
                let mut k: usize = 0;
                while k < pairs.len()
                    invariant
                        k <= pairs@.len(),
                        ps == pair_views(pairs@),
                        !is_mp_weixin(href@),
                        has_infix(href@, "weixin.sogou.com/link"@) || has_prefix(href@, "/link?"@),
                        absolute@ == (if has_prefix(href@, "/link?"@) {
                            "https://weixin.sogou.com"@ + href@
                        } else {
                            href@
                        }),
                        url_query_pairs(absolute@) == Some(ps),
                        first_mp_query_value(ps, 0) == first_mp_query_value(ps, k as int),
                    decreases pairs.len() - k,
                {
                    assert(ps[k as int] == (pairs@[k as int].0@, pairs@[k as int].1@));
                    if str_eq(pairs[k].0.as_str(), "url") {
                        let candidate = decode_or_keep(pairs[k].1.as_str());
                        if is_mp_weixin_url(candidate.as_str()) {
                            return candidate;
                        }
                    }
                    k = k + 1;
                }
            },
            None => {},
        }
        match extract_url_param(absolute.as_str()) {
            Some(d) => {
                if is_mp_weixin_url(d.as_str()) {
                    return d;
                }
            },
            None => {},
        }
    }
    str_to_string(href)
}

impl SogouWeixinParser {
    pub fn new() -> (r: SogouWeixinParser)
        ensures
            r@ == ("SogouWeixinParser"@, SearchEngineType::SougouWeixin),
    {
        SogouWeixinParser {
            base: BaseParserImpl::new(str_to_string("SogouWeixinParser"), SearchEngineType::SougouWeixin),
        }
    }

    pub fn name(&self) -> (r: &str)
        ensures
            r@ == self@.0,
    {
        self.base.name()
    }

    pub fn engine_type(&self) -> (r: SearchEngineType)
        ensures
            r == self@.1,
    {
        self.base.engine_type()
    }

    pub fn supports(&self, engine_type: &SearchEngineType) -> (r: bool)
        ensures
            r == (self@.1 == *engine_type),
    {
        self.base.supports(engine_type)
    }

    /// The first non-empty data attribute of an anchor.
    fn data_link(page: &HtmlPage, n: usize) -> (r: Option<String>)
        ensures
            match data_link_from(page@, n, 0) {
                Some(v) => r matches Some(x) && x@ == v,
                None => r is None,
            },
    {
        let keys: [&str; 5] = ["data-share", "data-url", "data-href", "data-shareurl", "data-link"];
        let mut k: usize = 0;
        while k < 5
            invariant
                k <= 5,
                forall|j: int| 0 <= j < 5 ==> #[trigger] keys@[j]@ == data_link_attrs()[j],
                data_link_from(page@, n, 0) == data_link_from(page@, n, k as int),
            decreases 5 - k,
        {
            assert(keys@[k as int]@ == data_link_attrs()[k as int]);
            match attr_of(page, n, keys[k]) {
                Some(v) => {
                    if !v.as_str().is_empty() {
                        return Some(v);
                    }
                },
                None => {},
            }
            k = k + 1;
        }
        None
    }

    /// What one anchor yields (the seen-link check is done when the results
    /// are gathered).
    fn anchor_candidate(page: &HtmlPage, n: usize) -> (r: Option<Candidate>)
        ensures
            entry_of(r) == weixin_candidate(page@, n),
    {
        match attr_of(page, n, "href") {
            None => {
                let c = match Self::data_link(page, n) {
                    None => {
                        return None;
                    },
                    Some(c) => c,
                };
                let resolved = resolve_weixin_url(c.as_str());
                let url = normalize_url(resolved.as_str());
                if !is_mp_weixin_url(url.as_str()) || url.as_str().is_empty() {
                    return None;
                }
                let title = trimmed_text(page, n);
                Some(Candidate { title, url, snippet: String::new() })
            },
            Some(href) => {
                if href.as_str().is_empty() {
                    return None;
                }
                let resolved = resolve_weixin_url(href.as_str());
                let url = normalize_url(resolved.as_str());
                let is_mp = is_mp_weixin_url(url.as_str());
                let is_redirect = is_sogou_weixin_redirect_url(url.as_str());
                if !is_mp && !is_redirect {
                    return None;
                }
                if url.as_str().is_empty() {
                    return None;
                }
                let title = trimmed_text(page, n);
                Some(Candidate { title, url, snippet: String::new() })
            },
        }
    }

    fn candidates(page: &HtmlPage) -> (r: Vec<Option<Candidate>>)
        ensures
            entries(r@) == weixin_candidates(page@),
    {
        let nodes = find_all(page, Selector::Name, "a", "");
        let mut out: Vec<Option<Candidate>> = Vec::new();
        let mut i: usize = 0;
        while i < nodes.len()
            invariant
                i <= nodes@.len(),
                nodes@ == document_find(page@, Selector::Name, "a"@, Seq::empty()),
                entries(out@) == weixin_candidates(page@).subrange(0, i as int),
            decreases nodes.len() - i,
        {
            let c = Self::anchor_candidate(page, nodes[i]);
            let ghost before = out@;
            out.push(c);
            assert(entries(out@) =~= entries(before).push(weixin_candidates(page@)[i as int]));
            i = i + 1;
            assert(entries(out@) =~= weixin_candidates(page@).subrange(0, i as int));
        }
        assert(weixin_candidates(page@).subrange(0, i as int) =~= weixin_candidates(page@));
        out
    }

    /// Parses a Sogou WeChat result page: nothing for a blank page or a zero
    /// limit, an error for a CAPTCHA page, else the article links.
    pub fn parse(&self, html: &str, limit: usize) -> (r: Result<Vec<SearchResult>, TarziError>)
        ensures
            if trim(html@).len() == 0 || limit == 0 {
                r matches Ok(v) && v@.len() == 0
            } else if is_captcha_page(html@) {
                r matches Err(TarziError::Search(m)) && m@ == captcha_message()
            } else {
                r matches Ok(v) && hits(v@) == weixin_results(html@, limit as nat)
            },
    {
        let t = trimmed(html);
        if t.as_str().is_empty() || limit == 0 {
            return Ok(Vec::new());
        }
        if str_contains(html, "此验证码用于确认") || str_contains(html, "验证码：") || str_contains(html, "VerifyCode") {
            return Err(
                TarziError::Search(
                    str_to_string(
                        "Sogou WeChat search detected automated request and is showing CAPTCHA page. This is a common anti-bot measure. Try accessing the site manually first or use a different search engine.",
                    ),
                ),
            );
        }
        let page = HtmlPage::parse(html);
        let cands = Self::candidates(&page);
        Ok(gather_hits(cands, limit, true))
    }
}

impl BaseParser for SogouWeixinParser {
    open spec fn parser_name(&self) -> Seq<char> {
        self@.0
    }

    open spec fn parser_kind(&self) -> SearchEngineType {
        self@.1
    }

    open spec fn gives(&self, html: Seq<char>, limit: nat, r: Result<Vec<SearchResult>, TarziError>) -> bool {
        parse_outcome(SearchEngineType::SougouWeixin, html, limit, r)
    }

    open spec fn parse_allowed(&self, html: Seq<char>) -> bool {
        true
    }

    fn name(&self) -> &str {
        self.base.name()
    }

    fn engine_type(&self) -> SearchEngineType {
        self.base.engine_type()
    }

    fn parse(&self, html: &str, limit: usize) -> Result<Vec<SearchResult>, TarziError> {
        SogouWeixinParser::parse(self, html, limit)
    }
}

} // verus!
