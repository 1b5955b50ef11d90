//! The parser traits and the common parser records of the unified parsers,
//! and helpers that read search results out of JSON values.
use vstd::prelude::*;
use crate::error::TarziError;
use crate::json::{json_array, json_document, json_get, json_str, parse_json, JsonValue};
use crate::parser::engines::{same_engine, SearchEngineType};
use crate::search::types::{hits, Hit, SearchResult};

verus! {

/// Base trait for all search result parsers.
pub trait BaseSearchParser {
    /// The parser's name.
    spec fn label(&self) -> Seq<char>;

    /// The engine the parser is for.
    spec fn engine(&self) -> SearchEngineType;

    /// Get the name of the parser.
    fn name(&self) -> (r: &str)
        ensures
            r@ == self.label(),
    ;

    /// Get the engine type this parser supports.
    fn engine_type(&self) -> (r: SearchEngineType)
        ensures
            r == self.engine(),
    ;

    /// Check if this parser can handle the given search engine type.
    fn supports(&self, engine_type: &SearchEngineType) -> (r: bool)
        ensures
            r == same_engine(self.engine(), *engine_type),
    {
        let e = self.engine_type();
        e.same_as(engine_type)
    }
}

/// Base trait for web query parsers (HTML-based). It repeats the methods of
/// `BaseSearchParser`, so that a parser can be held as a trait object.
pub trait WebSearchParser {
    /// The parser's name.
    spec fn web_label(&self) -> Seq<char>;

    /// The engine the parser is for.
    spec fn web_engine(&self) -> SearchEngineType;

    /// The results the parser reads from a page, or `None` where it fails.
    spec fn html_outcome(&self, html: Seq<char>, limit: nat) -> Option<Seq<Hit>>;

    /// Get the name of the parser.
    fn name(&self) -> (r: &str)
        ensures
            r@ == self.web_label(),
    ;

    /// Get the engine type this parser supports.
    fn engine_type(&self) -> (r: SearchEngineType)
        ensures
            r == self.web_engine(),
    ;

    /// Check if this parser can handle the given search engine type.
    fn supports(&self, engine_type: &SearchEngineType) -> (r: bool)
        ensures
            r == same_engine(self.web_engine(), *engine_type),
    ;

    /// Parse search results from HTML content.
    fn parse_html(&self, html: &str, limit: usize) -> (r: Result<Vec<SearchResult>, TarziError>)
        ensures
            match r {
                Ok(v) => self.html_outcome(html@, limit as nat) == Some(hits(v@)),
                Err(_) => self.html_outcome(html@, limit as nat) is None,
            },
    ;
}

/// Base trait for API query parsers (JSON-based). It repeats the methods of
/// `BaseSearchParser`, so that a parser can be held as a trait object.
pub trait ApiSearchParser {
    /// The parser's name.
    spec fn api_label(&self) -> Seq<char>;

    /// The engine the parser is for.
    spec fn api_engine(&self) -> SearchEngineType;

    /// The results the parser reads from a response, or `None` where it fails.
    spec fn json_outcome(&self, content: Seq<char>, limit: nat) -> Option<Seq<Hit>>;

    /// Get the name of the parser.
    fn name(&self) -> (r: &str)
        ensures
            r@ == self.api_label(),
    ;

    /// Get the engine type this parser supports.
    fn engine_type(&self) -> (r: SearchEngineType)
        ensures
            r == self.api_engine(),
    ;

    /// Check if this parser can handle the given search engine type.
    fn supports(&self, engine_type: &SearchEngineType) -> (r: bool)
        ensures
            r == same_engine(self.api_engine(), *engine_type),
    ;

    /// Parse search results from JSON content.
    fn parse_json(&self, json_content: &str, limit: usize) -> (r: Result<Vec<SearchResult>, TarziError>)
        ensures
            match r {
                Ok(v) => self.json_outcome(json_content@, limit as nat) == Some(hits(v@)),
                Err(_) => self.json_outcome(json_content@, limit as nat) is None,
            },
    ;
}

/// Unified parser trait that combines web and API parsing capabilities.
pub trait SearchResultParser {
    /// The parser's name.
    spec fn parser_label(&self) -> Seq<char>;

    /// Whether the parser handles an engine.
    spec fn handles(&self, engine_type: SearchEngineType) -> bool;

    /// Whether parsing this content runs to completion.
    spec fn accepts(&self, content: Seq<char>) -> bool;

    /// The results the parser reads from some content, or `None` where it
    /// fails.
    spec fn outcome(&self, content: Seq<char>, limit: nat) -> Option<Seq<Hit>>;

    /// Parse search results from content (HTML or JSON).
    fn parse(&self, content: &str, limit: usize) -> (r: Result<Vec<SearchResult>, TarziError>)
        requires
            self.accepts(content@),
        ensures
            match r {
                Ok(v) => self.outcome(content@, limit as nat) == Some(hits(v@)),
                Err(_) => self.outcome(content@, limit as nat) is None,
            },
    ;

    /// Get the name of the parser.
    fn name(&self) -> (r: &str)
        ensures
            r@ == self.parser_label(),
    ;

    /// Check if this parser can handle the given search engine type.
    fn supports(&self, engine_type: &SearchEngineType) -> (r: bool)
        ensures
            r == self.handles(*engine_type),
    ;
}

/// Base implementation for web parsers: a name and an engine.
pub struct BaseWebParser {
    name: String,
    engine_type: SearchEngineType,
}

impl View for BaseWebParser {
    type V = (Seq<char>, SearchEngineType);

    closed spec fn view(&self) -> (Seq<char>, SearchEngineType) {
        (self.name@, self.engine_type)
    }
}

impl BaseWebParser {
    pub fn new(name: String, engine_type: SearchEngineType) -> (r: BaseWebParser)
        ensures
            r@ == (name@, engine_type),
    {
        BaseWebParser { name, engine_type }
    }
}

impl BaseSearchParser for BaseWebParser {
    closed spec fn label(&self) -> Seq<char> {
        self.name@
    }

    closed spec fn engine(&self) -> SearchEngineType {
        self.engine_type
    }

    fn name(&self) -> (r: &str) {
        self.name.as_str()
    }

    fn engine_type(&self) -> (r: SearchEngineType) {
        self.engine_type.cloned()
    }
}

/// Base implementation for API parsers: a name and an engine.
pub struct BaseApiParser {
    name: String,
    engine_type: SearchEngineType,
}

impl View for BaseApiParser {
    type V = (Seq<char>, SearchEngineType);

    closed spec fn view(&self) -> (Seq<char>, SearchEngineType) {
        (self.name@, self.engine_type)
    }
}

impl BaseApiParser {
    pub fn new(name: String, engine_type: SearchEngineType) -> (r: BaseApiParser)
        ensures
            r@ == (name@, engine_type),
    {
        BaseApiParser { name, engine_type }
    }
}

impl BaseSearchParser for BaseApiParser {
    closed spec fn label(&self) -> Seq<char> {
        self.name@
    }

    closed spec fn engine(&self) -> SearchEngineType {
        self.engine_type
    }

    fn name(&self) -> (r: &str) {
        self.name.as_str()
    }

    fn engine_type(&self) -> (r: SearchEngineType) {
        self.engine_type.cloned()
    }
}

impl BaseWebParser {
    pub proof fn lemma_view(&self)
        ensures
            self.label() == self@.0,
            self.engine() == self@.1,
    {
    }
}

impl BaseApiParser {
    pub proof fn lemma_view(&self)
        ensures
            self.label() == self@.0,
            self.engine() == self@.1,
    {
    }
}

} // verus!

verus! {

/// `json[field]`: the member, or `null` when there is none.
pub open spec fn index_field(v: JsonValue, field: Seq<char>) -> JsonValue {
    match json_get(v, field) {
        Some(m) => m,
        None => JsonValue::Null,
    }
}

/// Indexing along a path of member names.
pub open spec fn nested_value(v: JsonValue, path: Seq<Seq<char>>) -> JsonValue
    decreases path.len(),
{
    if path.len() == 0 {
        v
    } else {
        nested_value(index_field(v, path[0]), path.drop_first())
    }
}

/// A value as text, or the empty text when it is not a string.
pub open spec fn text_or_empty(v: JsonValue) -> Seq<char> {
    match json_str(v) {
        Some(s) => s,
        None => Seq::empty(),
    }
}

pub open spec fn path_views(path: Seq<&str>) -> Seq<Seq<char>> {
    path.map_values(|s: &str| s@)
}

/// Extract text from a JSON field safely.
pub fn extract_json_text(json: &JsonValue, field: &str) -> (r: String)
    ensures
        r@ == text_or_empty(index_field(*json, field@)),
{
    match json.get(field) {
        Some(m) => match m.as_str() {
            Some(s) => s.clone(),
            None => String::new(),
        },
        None => String::new(),
    }
}

/// The value at the end of a path of member names.
fn follow_path<'a>(json: &'a JsonValue, path: &[&str], null: &'a JsonValue) -> (r: &'a JsonValue)
    requires
        *null == JsonValue::Null,
    ensures
        *r == nested_value(*json, path_views(path@)),
{
    let ghost ps = path_views(path@);
    let mut current: &JsonValue = json;
    let mut i: usize = 0;
    assert(ps.subrange(0, ps.len() as int) =~= ps);
    while i < path.len()
        invariant
            i <= path@.len(),
            ps == path_views(path@),
            *null == JsonValue::Null,
            nested_value(*json, ps) == nested_value(*current, ps.subrange(i as int, ps.len() as int)),
        decreases path.len() - i,
    {
        let ghost rest = ps.subrange(i as int, ps.len() as int);
        assert(rest.drop_first() =~= ps.subrange(i + 1, ps.len() as int));
        assert(rest[0] == path@[i as int]@);
        current = match current.get(path[i]) {
            Some(m) => m,
            None => null,
        };
        i = i + 1;
    }
    assert(ps.subrange(i as int, ps.len() as int) =~= Seq::<Seq<char>>::empty());
    current
}

/// Extract text from a nested JSON field safely.
pub fn extract_nested_json_text(json: &JsonValue, path: &[&str]) -> (r: String)
    ensures
        r@ == text_or_empty(nested_value(*json, path_views(path@))),
{
    let null = JsonValue::Null;
    let v = follow_path(json, path, &null);
    match v.as_str() {
        Some(s) => s.clone(),
        None => String::new(),
    }
}

/// The array member of a JSON value, if there is one.
pub fn extract_json_array<'a>(json: &'a JsonValue, field: &str) -> (r: Option<&'a Vec<JsonValue>>)
    ensures
        match json_array(index_field(*json, field@)) {
            Some(a) => r matches Some(x) && x@ == a,
            None => r is None,
        },
{
    match json.get(field) {
        Some(m) => m.as_array(),
        None => None,
    }
}

/// The array at the end of a path of member names, if there is one.
pub fn extract_nested_json_array<'a>(json: &'a JsonValue, path: &[&str], null: &'a JsonValue) -> (r: Option<&'a Vec<JsonValue>>)
    requires
        *null == JsonValue::Null,
    ensures
        match json_array(nested_value(*json, path_views(path@))) {
            Some(a) => r matches Some(x) && x@ == a,
            None => r is None,
        },
{
    follow_path(json, path, null).as_array()
}

/// The result that a JSON object describes in three of its string members.
pub open spec fn hit_from_json(v: JsonValue, title: Seq<char>, url: Seq<char>, snippet: Seq<char>, rank: nat) -> Hit {
    Hit {
        title: text_or_empty(index_field(v, title)),
        url: text_or_empty(index_field(v, url)),
        snippet: text_or_empty(index_field(v, snippet)),
        rank,
    }
}

/// Create a search result from JSON fields.
pub fn create_search_result_from_json(
    json: &JsonValue,
    title_field: &str,
    url_field: &str,
    snippet_field: &str,
    rank: usize,
) -> (r: SearchResult)
    ensures
        r@ == hit_from_json(*json, title_field@, url_field@, snippet_field@, rank as nat),
{
    SearchResult {
        title: extract_json_text(json, title_field),
        url: extract_json_text(json, url_field),
        snippet: extract_json_text(json, snippet_field),
        rank,
    }
}

/// Create a search result from nested JSON fields.
pub fn create_search_result_from_nested_json(
    json: &JsonValue,
    title_path: &[&str],
    url_path: &[&str],
    snippet_path: &[&str],
    rank: usize,
) -> (r: SearchResult)
    ensures
        r@ == (Hit {
            title: text_or_empty(nested_value(*json, path_views(title_path@))),
            url: text_or_empty(nested_value(*json, path_views(url_path@))),
            snippet: text_or_empty(nested_value(*json, path_views(snippet_path@))),
            rank: rank as nat,
        }),
{
    SearchResult {
        title: extract_nested_json_text(json, title_path),
        url: extract_nested_json_text(json, url_path),
        snippet: extract_nested_json_text(json, snippet_path),
        rank,
    }
}

/// The results an API response lists under `list_field`: the first `limit`
/// elements, each read through three member names and ranked by its position
/// counted from 0.
pub open spec fn listed_hits(
    json: JsonValue,
    list_field: Seq<char>,
    title: Seq<char>,
    url: Seq<char>,
    snippet: Seq<char>,
    limit: nat,
) -> Seq<Hit> {
    match json_array(index_field(json, list_field)) {
        Some(a) => {
            let n = if a.len() < limit { a.len() } else { limit };
            Seq::new(n, |i: int| hit_from_json(a[i], title, url, snippet, i as nat))
        },
        None => Seq::empty(),
    }
}

/// Reads the results an API response lists, as `listed_hits` describes.
pub fn listed_results(
    json: &JsonValue,
    list_field: &str,
    title: &str,
    url: &str,
    snippet: &str,
    limit: usize,
) -> (r: Vec<SearchResult>)
    ensures
        hits(r@) == listed_hits(*json, list_field@, title@, url@, snippet@, limit as nat),
{
    let mut results: Vec<SearchResult> = Vec::new();
    match extract_json_array(json, list_field) {
        Some(a) => {
            let n = if a.len() < limit {
                a.len()
            } else {
                limit
            };
            let mut i: usize = 0;
            while i < n
                invariant
                    i <= n,
                    n <= a@.len(),
                    n == (if a@.len() < limit { a@.len() } else { limit as nat }),
                    json_array(index_field(*json, list_field@)) == Some(a@),
                    hits(results@) =~= Seq::new(i as nat, |j: int| hit_from_json(a@[j], title@, url@, snippet@, j as nat)),
                decreases n - i,
            {
                let item = create_search_result_from_json(&a[i], title, url, snippet, i);
                let ghost before = hits(results@);
                let ghost h = item@;
                results.push(item);
                assert(hits(results@) =~= before.push(h));
                i = i + 1;
            }
        },
        None => {},
    }
    results
}

} // verus!

verus! {

/// The results of an API response text: `None` where it is not JSON, else
/// the results it lists as `listed_hits` describes.
pub open spec fn api_outcome(
    content: Seq<char>,
    list_field: Seq<char>,
    title: Seq<char>,
    url: Seq<char>,
    snippet: Seq<char>,
    limit: nat,
) -> Option<Seq<Hit>> {
    match json_document(content) {
        None => None,
        Some(v) => Some(listed_hits(v, list_field, title, url, snippet, limit)),
    }
}

/// Parses an API response and reads the results it lists; a text that is
/// not JSON is a JSON error.
pub fn parse_listed(
    json_content: &str,
    list_field: &str,
    title: &str,
    url: &str,
    snippet: &str,
    limit: usize,
) -> (r: Result<Vec<SearchResult>, TarziError>)
    ensures
        match r {
            Ok(v) => api_outcome(json_content@, list_field@, title@, url@, snippet@, limit as nat) == Some(hits(v@)),
            Err(e) => api_outcome(json_content@, list_field@, title@, url@, snippet@, limit as nat) is None
                && e is Json,
        },
{
    match parse_json(json_content) {
        Err(e) => Err(TarziError::Json(e)),
        Ok(v) => Ok(listed_results(&v, list_field, title, url, snippet, limit)),
    }
}

} // verus!
