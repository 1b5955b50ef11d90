//! A configurable parser for custom engines, and the API parsers of Exa and
//! Travily.
use vstd::prelude::*;
use std::collections::HashMap;
use crate::error::TarziError;
use crate::json::{json_document, parse_json};
use crate::parser::base::{
    api_outcome, listed_hits, listed_results, parse_listed, ApiSearchParser, BaseApiParser, BaseSearchParser, BaseWebParser,
    SearchResultParser, WebSearchParser,
};
use crate::parser::engines::{is_custom_named, same_engine, SearchEngineType};
use crate::search::types::{hits, Hit, SearchResult};
use crate::text::{append_str, decimal, decimal_text, str_to_string, string_of, to_lowercase, unicode_lowercase};

verus! {

/// The selectors a custom parser is configured with, and free-form rules.
#[derive(Debug, Clone)]
pub struct CustomParserConfig {
    /// CSS selectors for extracting search results
    pub result_container_selector: String,
    pub title_selector: String,
    pub url_selector: String,
    pub snippet_selector: String,
    /// Optional custom parsing rules
    pub custom_rules: HashMap<String, String>,
}

impl Default for CustomParserConfig {
    fn default() -> (r: CustomParserConfig)
        ensures
            r.result_container_selector@ == ".result"@,
            r.title_selector@ == "h3 a"@,
            r.url_selector@ == "cite"@,
            r.snippet_selector@ == ".snippet"@,
            r.custom_rules@ == Map::<String, String>::empty(),
    {
        CustomParserConfig {
            result_container_selector: str_to_string(".result"),
            title_selector: str_to_string("h3 a"),
            url_selector: str_to_string("cite"),
            snippet_selector: str_to_string(".snippet"),
            custom_rules: HashMap::new(),
        }
    }
}

/// The selector texts of a configuration.
pub open spec fn selectors_of(c: CustomParserConfig) -> (Seq<char>, Seq<char>, Seq<char>, Seq<char>) {
    (c.result_container_selector@, c.title_selector@, c.url_selector@, c.snippet_selector@)
}

/// The placeholder result a custom parser produces at rank `rank`.
pub open spec fn custom_mock_hit(name: Seq<char>, sel: (Seq<char>, Seq<char>, Seq<char>, Seq<char>), rank: nat) -> Hit {
    Hit {
        title: name + " Custom Search Result #"@ + decimal(rank) + " - Mock Title"@,
        url: "https://example-"@ + unicode_lowercase(name) + "-result-"@ + decimal(rank) + ".com"@,
        snippet: "This is a mock "@ + name + " search result snippet for result "@ + decimal(rank)
            + ". Custom parser using selectors: container='"@ + sel.0 + "', title='"@ + sel.1
            + "', url='"@ + sel.2 + "', snippet='"@ + sel.3 + "'."@,
        rank,
    }
}

/// The placeholder results: as many as the limit allows, at most 8, ranked
/// from 1.
pub open spec fn custom_mock_hits(name: Seq<char>, sel: (Seq<char>, Seq<char>, Seq<char>, Seq<char>), limit: nat) -> Seq<Hit> {
    let n = if limit < 8 { limit } else { 8 };
    Seq::new(n, |i: int| custom_mock_hit(name, sel, (i + 1) as nat))
}

/// A parser for a custom engine, known by name and configured with
/// selectors. It produces placeholder results that name the engine and the
/// selectors.
pub struct CustomParser {
    engine_name: String,
    custom_config: CustomParserConfig,
    base: BaseWebParser,
}

impl CustomParser {
    #[verifier::type_invariant]
    closed spec fn well_formed(self) -> bool {
        self.base@.0 == self.engine_name@ && is_custom_named(self.base@.1, self.engine_name@)
    }

    /// The engine name.
    pub closed spec fn engine_label(&self) -> Seq<char> {
        self.engine_name@
    }

    /// The configuration.
    pub closed spec fn spec_config(&self) -> CustomParserConfig {
        self.custom_config
    }

    pub fn new(engine_name: String) -> (r: CustomParser)
        ensures
            r.engine_label() == engine_name@,
            selectors_of(r.spec_config()) == (".result"@, "h3 a"@, "cite"@, ".snippet"@),
            r.spec_config().custom_rules@ == Map::<String, String>::empty(),
    {
        let base = BaseWebParser::new(engine_name.clone(), SearchEngineType::Custom(engine_name.clone()));
        CustomParser { base, engine_name, custom_config: CustomParserConfig::default() }
    }

    pub fn with_config(engine_name: String, config: CustomParserConfig) -> (r: CustomParser)
        ensures
            r.engine_label() == engine_name@,
            r.spec_config() == config,
    {
        let base = BaseWebParser::new(engine_name.clone(), SearchEngineType::Custom(engine_name.clone()));
        CustomParser { base, engine_name, custom_config: config }
    }

    /// Set custom CSS selectors for parsing.
    pub fn set_selectors(&mut self, container: &str, title: &str, url: &str, snippet: &str)
        ensures
            final(self).engine_label() == old(self).engine_label(),
            selectors_of(final(self).spec_config()) == (container@, title@, url@, snippet@),
            final(self).spec_config().custom_rules == old(self).spec_config().custom_rules,
    {
        proof {
            use_type_invariant(&*self);
        }
        self.custom_config.result_container_selector = str_to_string(container);
        self.custom_config.title_selector = str_to_string(title);
        self.custom_config.url_selector = str_to_string(url);
        self.custom_config.snippet_selector = str_to_string(snippet);
    }

    /// Add a custom parsing rule. What the map holds afterwards is stated
    /// under the key model that `HashMap` has for its key type.
    pub fn add_custom_rule(&mut self, key: String, value: String)
        ensures
            final(self).engine_label() == old(self).engine_label(),
            selectors_of(final(self).spec_config()) == selectors_of(old(self).spec_config()),
            vstd::std_specs::hash::obeys_key_model::<String>() ==> final(self).spec_config().custom_rules@
                == old(self).spec_config().custom_rules@.insert(key, value),
    {
        proof {
            use_type_invariant(&*self);
        }
        let mut cfg = CustomParserConfig::default();
        std::mem::swap(&mut cfg, &mut self.custom_config);
        cfg.custom_rules.insert(key, value);
        self.custom_config = cfg;
    }

    pub fn config(&self) -> (r: &CustomParserConfig)
        ensures
            *r == self.spec_config(),
    {
        &self.custom_config
    }
}

impl BaseSearchParser for CustomParser {
    closed spec fn label(&self) -> Seq<char> {
        self.engine_name@
    }

    closed spec fn engine(&self) -> SearchEngineType {
        self.base@.1
    }

    fn name(&self) -> (r: &str) {
        proof {
            use_type_invariant(self);
            self.base.lemma_view();
        }
        self.base.name()
    }

    fn engine_type(&self) -> (r: SearchEngineType) {
        proof {
            self.base.lemma_view();
        }
        self.base.engine_type()
    }
}

impl WebSearchParser for CustomParser {
    open spec fn web_label(&self) -> Seq<char> {
        self.engine_label()
    }

    open spec fn web_engine(&self) -> SearchEngineType {
        BaseSearchParser::engine(self)
    }

    fn name(&self) -> (r: &str) {
        BaseSearchParser::name(self)
    }

    fn engine_type(&self) -> (r: SearchEngineType) {
        BaseSearchParser::engine_type(self)
    }

    fn supports(&self, engine_type: &SearchEngineType) -> (r: bool) {
        BaseSearchParser::supports(self, engine_type)
    }

    closed spec fn html_outcome(&self, html: Seq<char>, limit: nat) -> Option<Seq<Hit>> {
        Some(custom_mock_hits(self.engine_name@, selectors_of(self.custom_config), limit))
    }

    fn parse_html(&self, _html: &str, limit: usize) -> (r: Result<Vec<SearchResult>, TarziError>) {
        let count = if limit < 8 {
            limit
        } else {
            8
        };
        let ghost name = self.engine_name@;
        let ghost sel = selectors_of(self.custom_config);
        let lower = to_lowercase(self.engine_name.as_str());
        let mut results: Vec<SearchResult> = Vec::new();
        let mut i: usize = 0;
        while i < count
            invariant
                i <= count,
                count <= 8,
                count as nat == (if (limit as nat) < 8 { limit as nat } else { 8 }),
                name == self.engine_name@,
                sel == selectors_of(self.custom_config),
                lower@ == unicode_lowercase(name),
                hits(results@) =~= Seq::new(i as nat, |j: int| custom_mock_hit(name, sel, (j + 1) as nat)),
            decreases count - i,
        {
            let rank = i + 1;
            let num = decimal_text(rank);
            let mut title: Vec<char> = Vec::new();
            append_str(&mut title, self.engine_name.as_str());
            append_str(&mut title, " Custom Search Result #");
            append_str(&mut title, num.as_str());
            append_str(&mut title, " - Mock Title");
            let mut url: Vec<char> = Vec::new();
            append_str(&mut url, "https://example-");
            append_str(&mut url, lower.as_str());
            append_str(&mut url, "-result-");
            append_str(&mut url, num.as_str());
            append_str(&mut url, ".com");
            let mut snippet: Vec<char> = Vec::new();
            append_str(&mut snippet, "This is a mock ");
            append_str(&mut snippet, self.engine_name.as_str());
            append_str(&mut snippet, " search result snippet for result ");
            append_str(&mut snippet, num.as_str());
            append_str(&mut snippet, ". Custom parser using selectors: container='");
            append_str(&mut snippet, self.custom_config.result_container_selector.as_str());
            append_str(&mut snippet, "', title='");
            append_str(&mut snippet, self.custom_config.title_selector.as_str());
            append_str(&mut snippet, "', url='");
            append_str(&mut snippet, self.custom_config.url_selector.as_str());
            append_str(&mut snippet, "', snippet='");
            append_str(&mut snippet, self.custom_config.snippet_selector.as_str());
            append_str(&mut snippet, "'.");
            let item = SearchResult {
                title: string_of(title.as_slice()),
                url: string_of(url.as_slice()),
                snippet: string_of(snippet.as_slice()),
                rank,
            };
            let ghost before = hits(results@);
            assert(item@ == custom_mock_hit(name, sel, rank as nat));
            results.push(item);
            assert(hits(results@) =~= before.push(custom_mock_hit(name, sel, rank as nat)));
            i = i + 1;
        }
        Ok(results)
    }
}

impl SearchResultParser for CustomParser {
    open spec fn parser_label(&self) -> Seq<char> {
        self.engine_label()
    }

    open spec fn handles(&self, engine_type: SearchEngineType) -> bool {
        is_custom_named(engine_type, self.engine_label())
    }

    open spec fn accepts(&self, content: Seq<char>) -> bool {
        true
    }

    open spec fn outcome(&self, content: Seq<char>, limit: nat) -> Option<Seq<Hit>> {
        Some(custom_mock_hits(self.engine_label(), selectors_of(self.spec_config()), limit))
    }

    fn parse(&self, html: &str, limit: usize) -> (r: Result<Vec<SearchResult>, TarziError>) {
        WebSearchParser::parse_html(self, html, limit)
    }

    fn name(&self) -> (r: &str) {
        self.engine_name.as_str()
    }

    fn supports(&self, engine_type: &SearchEngineType) -> (r: bool) {
        match engine_type {
            SearchEngineType::Custom(name) => crate::text::str_eq(name.as_str(), self.engine_name.as_str()),
            _ => false,
        }
    }
}

impl Default for CustomParser {
    fn default() -> (r: CustomParser)
        ensures
            r.engine_label() == "Custom"@,
    {
        CustomParser::new(str_to_string("Custom"))
    }
}

} // verus!

verus! {

/// Exa API parser (JSON-based): the `results` list, with `title`, `url` and
/// `text` members.
pub struct ExaApiParser {
    base: BaseApiParser,
}

impl ExaApiParser {
    #[verifier::type_invariant]
    closed spec fn well_formed(self) -> bool {
        self.base@ == ("ExaApiParser"@, SearchEngineType::Exa)
    }

    pub fn new() -> (r: ExaApiParser)
        ensures
            r.label() == "ExaApiParser"@,
            r.engine() == SearchEngineType::Exa,
    {
        let r = ExaApiParser { base: BaseApiParser::new(str_to_string("ExaApiParser"), SearchEngineType::Exa) };
        proof {
            r.base.lemma_view();
        }
        r
    }
}

impl BaseSearchParser for ExaApiParser {
    closed spec fn label(&self) -> Seq<char> {
        "ExaApiParser"@
    }

    closed spec fn engine(&self) -> SearchEngineType {
        SearchEngineType::Exa
    }

    fn name(&self) -> (r: &str) {
        proof {
            use_type_invariant(self);
            self.base.lemma_view();
        }
        self.base.name()
    }

    fn engine_type(&self) -> (r: SearchEngineType) {
        proof {
            use_type_invariant(self);
            self.base.lemma_view();
        }
        self.base.engine_type()
    }
}

impl ApiSearchParser for ExaApiParser {
    open spec fn api_label(&self) -> Seq<char> {
        "ExaApiParser"@
    }

    open spec fn api_engine(&self) -> SearchEngineType {
        SearchEngineType::Exa
    }

    fn name(&self) -> (r: &str) {
        BaseSearchParser::name(self)
    }

    fn engine_type(&self) -> (r: SearchEngineType) {
        BaseSearchParser::engine_type(self)
    }

    fn supports(&self, engine_type: &SearchEngineType) -> (r: bool) {
        BaseSearchParser::supports(self, engine_type)
    }

    open spec fn json_outcome(&self, content: Seq<char>, limit: nat) -> Option<Seq<Hit>> {
        api_outcome(content, "results"@, "title"@, "url"@, "text"@, limit)
    }

    fn parse_json(&self, json_content: &str, limit: usize) -> (r: Result<Vec<SearchResult>, TarziError>) {
        parse_listed(json_content, "results", "title", "url", "text", limit)
    }
}

impl SearchResultParser for ExaApiParser {
    open spec fn parser_label(&self) -> Seq<char> {
        "ExaApiParser"@
    }

    open spec fn handles(&self, engine_type: SearchEngineType) -> bool {
        same_engine(SearchEngineType::Exa, engine_type)
    }

    open spec fn accepts(&self, content: Seq<char>) -> bool {
        true
    }

    open spec fn outcome(&self, content: Seq<char>, limit: nat) -> Option<Seq<Hit>> {
        api_outcome(content, "results"@, "title"@, "url"@, "text"@, limit)
    }

    fn parse(&self, json_content: &str, limit: usize) -> (r: Result<Vec<SearchResult>, TarziError>) {
        ApiSearchParser::parse_json(self, json_content, limit)
    }

    fn name(&self) -> (r: &str) {
        BaseSearchParser::name(self)
    }

    fn supports(&self, engine_type: &SearchEngineType) -> (r: bool) {
        BaseSearchParser::supports(self, engine_type)
    }
}

impl Default for ExaApiParser {
    fn default() -> (r: ExaApiParser)
        ensures
            r.label() == "ExaApiParser"@,
    {
        ExaApiParser::new()
    }
}

/// Travily API parser (JSON-based): the `results` list, with `title`, `url`
/// and `content` members.
pub struct TravilyApiParser {
    base: BaseApiParser,
}

impl TravilyApiParser {
    #[verifier::type_invariant]
    closed spec fn well_formed(self) -> bool {
        self.base@ == ("TravilyApiParser"@, SearchEngineType::Travily)
    }

    pub fn new() -> (r: TravilyApiParser)
        ensures
            r.label() == "TravilyApiParser"@,
            r.engine() == SearchEngineType::Travily,
    {
        let r = TravilyApiParser {
            base: BaseApiParser::new(str_to_string("TravilyApiParser"), SearchEngineType::Travily),
        };
        proof {
            r.base.lemma_view();
        }
        r
    }
}

impl BaseSearchParser for TravilyApiParser {
    closed spec fn label(&self) -> Seq<char> {
        "TravilyApiParser"@
    }

    closed spec fn engine(&self) -> SearchEngineType {
        SearchEngineType::Travily
    }

    fn name(&self) -> (r: &str) {
        proof {
            use_type_invariant(self);
            self.base.lemma_view();
        }
        self.base.name()
    }

    fn engine_type(&self) -> (r: SearchEngineType) {
        proof {
            use_type_invariant(self);
            self.base.lemma_view();
        }
        self.base.engine_type()
    }
}

impl ApiSearchParser for TravilyApiParser {
    open spec fn api_label(&self) -> Seq<char> {
        "TravilyApiParser"@
    }

    open spec fn api_engine(&self) -> SearchEngineType {
        SearchEngineType::Travily
    }

    fn name(&self) -> (r: &str) {
        BaseSearchParser::name(self)
    }

    fn engine_type(&self) -> (r: SearchEngineType) {
        BaseSearchParser::engine_type(self)
    }

    fn supports(&self, engine_type: &SearchEngineType) -> (r: bool) {
        BaseSearchParser::supports(self, engine_type)
    }

    open spec fn json_outcome(&self, content: Seq<char>, limit: nat) -> Option<Seq<Hit>> {
        api_outcome(content, "results"@, "title"@, "url"@, "content"@, limit)
    }

    fn parse_json(&self, json_content: &str, limit: usize) -> (r: Result<Vec<SearchResult>, TarziError>) {
        parse_listed(json_content, "results", "title", "url", "content", limit)
    }
}

impl SearchResultParser for TravilyApiParser {
    open spec fn parser_label(&self) -> Seq<char> {
        "TravilyApiParser"@
    }

    open spec fn handles(&self, engine_type: SearchEngineType) -> bool {
        same_engine(SearchEngineType::Travily, engine_type)
    }

    open spec fn accepts(&self, content: Seq<char>) -> bool {
        true
    }

    open spec fn outcome(&self, content: Seq<char>, limit: nat) -> Option<Seq<Hit>> {
        api_outcome(content, "results"@, "title"@, "url"@, "content"@, limit)
    }

    fn parse(&self, json_content: &str, limit: usize) -> (r: Result<Vec<SearchResult>, TarziError>) {
        ApiSearchParser::parse_json(self, json_content, limit)
    }

    fn name(&self) -> (r: &str) {
        BaseSearchParser::name(self)
    }

    fn supports(&self, engine_type: &SearchEngineType) -> (r: bool) {
        BaseSearchParser::supports(self, engine_type)
    }
}

impl Default for TravilyApiParser {
    fn default() -> (r: TravilyApiParser)
        ensures
            r.label() == "TravilyApiParser"@,
    {
        TravilyApiParser::new()
    }
}

} // verus!
