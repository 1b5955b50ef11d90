//! Placeholder parser for Tavily: it produces numbered sample results.
use vstd::prelude::*;
use crate::error::TarziError;
use crate::parser::base::SearchResultParser;
use crate::parser::engines::{same_engine, SearchEngineType};
use crate::search::types::{hits, Hit, SearchResult};
use crate::text::{append_str, decimal, decimal_text, string_of};

verus! {

/// The sample result at rank `rank` of a placeholder parser for `brand`
/// (its name in addresses being `slug`).
pub open spec fn mock_hit(brand: Seq<char>, slug: Seq<char>, rank: nat) -> Hit {
    Hit {
        title: brand + " Search Result #"@ + decimal(rank) + " - Mock Title"@,
        url: "https://example-"@ + slug + "-result-"@ + decimal(rank) + ".com"@,
        snippet: "This is a mock "@ + brand + " search result snippet for result "@ + decimal(rank)
            + ". In a real implementation, this would be extracted from the HTML using appropriate CSS selectors."@,
        rank,
    }
}

/// The sample results: as many as the limit allows, at most 10, ranked from 1.
pub open spec fn mock_hits(brand: Seq<char>, slug: Seq<char>, limit: nat) -> Seq<Hit> {
    let n = if limit < 10 { limit } else { 10 };
    Seq::new(n, |i: int| mock_hit(brand, slug, (i + 1) as nat))
}

/// Builds the sample results `mock_hits` describes.
pub fn mock_results(brand: &str, slug: &str, limit: usize) -> (r: Vec<SearchResult>)
    ensures
        hits(r@) == mock_hits(brand@, slug@, limit as nat),
{
    let count = if limit < 10 {
        limit
    } else {
        10
    };
    let mut results: Vec<SearchResult> = Vec::new();
    let mut i: usize = 0;
    while i < count
        invariant
            i <= count,
            count <= 10,
            count as nat == (if (limit as nat) < 10 { limit as nat } else { 10 }),
            hits(results@) =~= Seq::new(i as nat, |j: int| mock_hit(brand@, slug@, (j + 1) as nat)),
        decreases count - i,
    {
        let rank = i + 1;
        let num = decimal_text(rank);
        let mut title: Vec<char> = Vec::new();
        append_str(&mut title, brand);
        append_str(&mut title, " Search Result #");
        append_str(&mut title, num.as_str());
        append_str(&mut title, " - Mock Title");
        let mut url: Vec<char> = Vec::new();
        append_str(&mut url, "https://example-");
        append_str(&mut url, slug);
        append_str(&mut url, "-result-");
        append_str(&mut url, num.as_str());
        append_str(&mut url, ".com");
        let mut snippet: Vec<char> = Vec::new();
        append_str(&mut snippet, "This is a mock ");
        append_str(&mut snippet, brand);
        append_str(&mut snippet, " search result snippet for result ");
        append_str(&mut snippet, num.as_str());
        append_str(
            &mut snippet,
            ". In a real implementation, this would be extracted from the HTML using appropriate CSS selectors.",
        );
        let item = SearchResult {
            title: string_of(title.as_slice()),
            url: string_of(url.as_slice()),
            snippet: string_of(snippet.as_slice()),
            rank,
        };
        let ghost before = hits(results@);
        assert(item@ == mock_hit(brand@, slug@, rank as nat));
        results.push(item);
        assert(hits(results@) =~= before.push(mock_hit(brand@, slug@, rank as nat)));
        i = i + 1;
    }
    results
}

/// Placeholder parser for Tavily.
pub struct TavilyParser;

impl TavilyParser {
    pub fn new() -> (r: TavilyParser) {
        TavilyParser
    }
}

impl SearchResultParser for TavilyParser {
    open spec fn parser_label(&self) -> Seq<char> {
        "TavilyParser"@
    }

    open spec fn handles(&self, engine_type: SearchEngineType) -> bool {
        engine_type is Tavily
    }

    open spec fn accepts(&self, content: Seq<char>) -> bool {
        true
    }

    open spec fn outcome(&self, content: Seq<char>, limit: nat) -> Option<Seq<Hit>> {
        Some(mock_hits("Tavily"@, "tavily"@, limit))
    }

    fn parse(&self, _html: &str, limit: usize) -> (r: Result<Vec<SearchResult>, TarziError>) {
        Ok(mock_results("Tavily", "tavily", limit))
    }

    fn name(&self) -> (r: &str) {
        "TavilyParser"
    }

    fn supports(&self, engine_type: &SearchEngineType) -> (r: bool) {
        match engine_type {
            SearchEngineType::Tavily => true,
            _ => false,
        }
    }
}

impl Default for TavilyParser {
    fn default() -> (r: TavilyParser) {
        TavilyParser::new()
    }
}

} // verus!
