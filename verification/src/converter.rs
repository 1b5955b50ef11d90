//! Conversion of HTML into Markdown (with `html2md`) and into a structured
//! document read from the Markdown's events (with `pulldown-cmark`).
use vstd::prelude::*;
use pulldown_cmark::{Event, HeadingLevel, Parser as MarkdownParser, Tag};
use pulldown_cmark::Tag::{
    BlockQuote, CodeBlock, Emphasis, FootnoteDefinition, Heading, Image, Item, Link, List, Paragraph, Strikethrough,
    Strong, Table, TableCell, TableHead, TableRow,
};
use crate::config::Config;
use crate::error::TarziError;
use crate::text::{all_ascii, ascii_lower, str_eq, str_to_string, to_lowercase, trim, trimmed, unicode_lowercase};

verus! {

/// Output formats.
#[derive(Debug, Clone, Copy, PartialEq, Eq, Structural)]
pub enum Format {
    Html,
    Markdown,
    Json,
    Yaml,
}

/// The format named by an already lower-cased name.
pub open spec fn format_named(lower: Seq<char>) -> Option<Format> {
    if lower == "html"@ {
        Some(Format::Html)
    } else if lower == "markdown"@ || lower == "md"@ {
        Some(Format::Markdown)
    } else if lower == "json"@ {
        Some(Format::Json)
    } else if lower == "yaml"@ || lower == "yml"@ {
        Some(Format::Yaml)
    } else {
        None
    }
}

impl Format {
    /// Parses a format name, ignoring case; an unknown name is an
    /// `InvalidFormat` error that carries the name as given.
    pub fn parse(s: &str) -> (r: Result<Format, TarziError>)
        ensures
            match format_named(unicode_lowercase(s@)) {
                Some(f) => r == Ok::<Format, TarziError>(f),
                None => r matches Err(TarziError::InvalidFormat(m)) && m@ == s@,
            },
            all_ascii(s@) ==> unicode_lowercase(s@) == s@.map_values(|c: char| ascii_lower(c)),
    {
        let lower = to_lowercase(s);
        let l = lower.as_str();
        if str_eq(l, "html") {
            Ok(Format::Html)
        } else if str_eq(l, "markdown") || str_eq(l, "md") {
            Ok(Format::Markdown)
        } else if str_eq(l, "json") {
            Ok(Format::Json)
        } else if str_eq(l, "yaml") || str_eq(l, "yml") {
            Ok(Format::Yaml)
        } else {
            Err(TarziError::InvalidFormat(str_to_string(s)))
        }
    }
}

impl std::str::FromStr for Format {
    type Err = TarziError;

    fn from_str(s: &str) -> (r: Result<Format, TarziError>)
        ensures
            match format_named(unicode_lowercase(s@)) {
                Some(f) => r == Ok::<Format, TarziError>(f),
                None => r matches Err(TarziError::InvalidFormat(m)) && m@ == s@,
            },
            all_ascii(s@) ==> unicode_lowercase(s@) == s@.map_values(|c: char| ascii_lower(c)),
    {
        Format::parse(s)
    }
}

/// The level of a Markdown heading.
#[derive(Debug, Clone, Copy, PartialEq, Eq, Structural)]
pub enum MdLevel {
    H1,
    H2,
    H3,
    H4,
    H5,
    H6,
}

/// A Markdown element, as `pulldown_cmark` reports it: headings carry their
/// level, links and images their target and title, lists their first number
/// and footnote definitions their label.
pub enum MdTag {
    Paragraph,
    Heading(MdLevel),
    BlockQuote,
    CodeBlock,
    List(Option<u64>),
    Item,
    FootnoteDefinition(String),
    Table,
    TableHead,
    TableRow,
    TableCell,
    Emphasis,
    Strong,
    Strikethrough,
    Link(String, String),
    Image(String, String),
}

/// An event of a Markdown text, as `pulldown_cmark` reports it.
pub enum MdEvent {
    Start(MdTag),
    End(MdTag),
    Text(String),
    Code(String),
    Html(String),
    FootnoteReference(String),
    SoftBreak,
    HardBreak,
    Rule,
    TaskListMarker(bool),
}

/// The abstract content of an element.
pub enum MdTagView {
    Paragraph,
    Heading(MdLevel),
    BlockQuote,
    CodeBlock,
    List(Option<u64>),
    Item,
    FootnoteDefinition(Seq<char>),
    Table,
    TableHead,
    TableRow,
    TableCell,
    Emphasis,
    Strong,
    Strikethrough,
    Link(Seq<char>, Seq<char>),
    Image(Seq<char>, Seq<char>),
}

/// The abstract content of an event.
pub enum MdEventView {
    Start(MdTagView),
    End(MdTagView),
    Text(Seq<char>),
    Code(Seq<char>),
    Html(Seq<char>),
    FootnoteReference(Seq<char>),
    SoftBreak,
    HardBreak,
    Rule,
    TaskListMarker(bool),
}

impl View for MdTag {
    type V = MdTagView;

    open spec fn view(&self) -> MdTagView {
        match self {
            MdTag::Paragraph => MdTagView::Paragraph,
            MdTag::Heading(l) => MdTagView::Heading(*l),
            MdTag::BlockQuote => MdTagView::BlockQuote,
            MdTag::CodeBlock => MdTagView::CodeBlock,
            MdTag::List(n) => MdTagView::List(*n),
            MdTag::Item => MdTagView::Item,
            MdTag::FootnoteDefinition(l) => MdTagView::FootnoteDefinition(l@),
            MdTag::Table => MdTagView::Table,
            MdTag::TableHead => MdTagView::TableHead,
            MdTag::TableRow => MdTagView::TableRow,
            MdTag::TableCell => MdTagView::TableCell,
            MdTag::Emphasis => MdTagView::Emphasis,
            MdTag::Strong => MdTagView::Strong,
            MdTag::Strikethrough => MdTagView::Strikethrough,
            MdTag::Link(u, t) => MdTagView::Link(u@, t@),
            MdTag::Image(u, t) => MdTagView::Image(u@, t@),
        }
    }
}

impl View for MdEvent {
    type V = MdEventView;

    open spec fn view(&self) -> MdEventView {
        match self {
            MdEvent::Start(t) => MdEventView::Start(t@),
            MdEvent::End(t) => MdEventView::End(t@),
            MdEvent::Text(t) => MdEventView::Text(t@),
            MdEvent::Code(t) => MdEventView::Code(t@),
            MdEvent::Html(t) => MdEventView::Html(t@),
            MdEvent::FootnoteReference(t) => MdEventView::FootnoteReference(t@),
            MdEvent::SoftBreak => MdEventView::SoftBreak,
            MdEvent::HardBreak => MdEventView::HardBreak,
            MdEvent::Rule => MdEventView::Rule,
            MdEvent::TaskListMarker(b) => MdEventView::TaskListMarker(*b),
        }
    }
}

pub open spec fn event_views(v: Seq<MdEvent>) -> Seq<MdEventView> {
    v.map_values(|e: MdEvent| e@)
}

/// The name of the Markdown text `html2md::parse_html` makes of an HTML text.
pub uninterp spec fn markdown_of_html(html: Seq<char>) -> Seq<char>;

/// The name of the events `pulldown_cmark::Parser` reports for a Markdown
/// text, as `MdEventView`s.
pub uninterp spec fn markdown_events_of(md: Seq<char>) -> Seq<MdEventView>;

/// Calls `html2md::parse_html`; claimed: the result is `markdown_of_html`.
#[verifier::external_body]
fn markdown_text(html: &str) -> (r: String)
    ensures
        r@ == markdown_of_html(html@),
{
    html2md::parse_html(html)
}

/// Runs `pulldown_cmark::Parser` over a Markdown text; claimed: the events,
/// converted one for one into `MdEvent`, are `markdown_events_of`.
#[verifier::external_body]
fn markdown_events(md: &str) -> (r: Vec<MdEvent>)
    ensures
        event_views(r@) == markdown_events_of(md@),
{
    MarkdownParser::new(md).map(event_of).collect()
}

#[verifier::external_type_specification]
#[verifier::external_body]
pub struct ExEvent<'a>(Event<'a>);

#[verifier::external_type_specification]
#[verifier::external_body]
pub struct ExTag<'a>(Tag<'a>);

#[verifier::external_type_specification]
#[verifier::external_body]
pub struct ExHeadingLevel(HeadingLevel);

/// Converts a `pulldown_cmark` event variant by variant.
#[verifier::external_body]
fn event_of(e: Event) -> MdEvent {
    match e {
        Event::Start(t) => MdEvent::Start(tag_of(t)),
        Event::End(t) => MdEvent::End(tag_of(t)),
        Event::Text(t) => MdEvent::Text(t.to_string()),
        Event::Code(t) => MdEvent::Code(t.to_string()),
        Event::Html(t) => MdEvent::Html(t.to_string()),
        Event::FootnoteReference(t) => MdEvent::FootnoteReference(t.to_string()),
        Event::SoftBreak => MdEvent::SoftBreak,
        Event::HardBreak => MdEvent::HardBreak,
        Event::Rule => MdEvent::Rule,
        Event::TaskListMarker(b) => MdEvent::TaskListMarker(b),
    }
}

/// Converts a `pulldown_cmark` element variant by variant.
#[verifier::external_body]
fn tag_of(t: Tag) -> MdTag {
    match t {
        Paragraph => MdTag::Paragraph, Heading(l, _, _) => MdTag::Heading(level_of(l)),
        BlockQuote => MdTag::BlockQuote, CodeBlock(_) => MdTag::CodeBlock,
        List(n) => MdTag::List(n), Item => MdTag::Item,
        FootnoteDefinition(l) => MdTag::FootnoteDefinition(l.to_string()), Table(_) => MdTag::Table,
        TableHead => MdTag::TableHead, TableRow => MdTag::TableRow, TableCell => MdTag::TableCell,
        Emphasis => MdTag::Emphasis, Strong => MdTag::Strong, Strikethrough => MdTag::Strikethrough,
        Link(_, u, t) => MdTag::Link(u.to_string(), t.to_string()),
        Image(_, u, t) => MdTag::Image(u.to_string(), t.to_string()),
    }
}

/// Converts a `pulldown_cmark` heading level variant by variant.
#[verifier::external_body]
fn level_of(l: HeadingLevel) -> MdLevel {
    match l {
        HeadingLevel::H1 => MdLevel::H1,
        HeadingLevel::H2 => MdLevel::H2,
        HeadingLevel::H3 => MdLevel::H3,
        HeadingLevel::H4 => MdLevel::H4,
        HeadingLevel::H5 => MdLevel::H5,
        HeadingLevel::H6 => MdLevel::H6,
    }
}

/// A document read from a page: its title, text, link targets and image
/// sources.
#[derive(Debug)]
pub struct HtmlDocument {
    pub title: Option<String>,
    pub content: String,
    pub links: Vec<String>,
    pub images: Vec<String>,
}

/// The abstract content of a document.
pub struct HtmlDocumentView {
    pub title: Option<Seq<char>>,
    pub content: Seq<char>,
    pub links: Seq<Seq<char>>,
    pub images: Seq<Seq<char>>,
}

pub open spec fn string_views(v: Seq<String>) -> Seq<Seq<char>> {
    v.map_values(|s: String| s@)
}

impl View for HtmlDocument {
    type V = HtmlDocumentView;

    open spec fn view(&self) -> HtmlDocumentView {
        HtmlDocumentView {
            title: match self.title {
                Some(t) => Some(t@),
                None => None,
            },
            content: self.content@,
            links: string_views(self.links@),
            images: string_views(self.images@),
        }
    }
}

/// The reading of a document so far: title, text, links, images, and
/// whether a level-one heading is open.
pub struct ReadState {
    pub title: Option<Seq<char>>,
    pub content: Seq<char>,
    pub links: Seq<Seq<char>>,
    pub images: Seq<Seq<char>>,
    pub in_title: bool,
}

/// One event read: text inside a level-one heading becomes the title (the
/// last such piece wins), other text goes to the content followed by a
/// space, a paragraph's end adds a line break, links and images are listed.
pub open spec fn read_step(s: ReadState, e: MdEventView) -> ReadState {
    match e {
        MdEventView::Start(MdTagView::Heading(MdLevel::H1)) => ReadState { in_title: true, ..s },
        MdEventView::End(MdTagView::Heading(MdLevel::H1)) => ReadState { in_title: false, ..s },
        MdEventView::Text(t) => if s.in_title {
            ReadState { title: Some(t), ..s }
        } else {
            ReadState { content: s.content + t + seq![' '], ..s }
        },
        MdEventView::Start(MdTagView::Link(u, _)) => ReadState { links: s.links.push(u), ..s },
        MdEventView::Start(MdTagView::Image(u, _)) => ReadState { images: s.images.push(u), ..s },
        MdEventView::End(MdTagView::Paragraph) => ReadState { content: s.content.push('\n'), ..s },
        _ => s,
    }
}

/// The reading after a sequence of events.
pub open spec fn read_events(es: Seq<MdEventView>) -> ReadState
    decreases es.len(),
{
    if es.len() == 0 {
        ReadState { title: None, content: Seq::empty(), links: Seq::empty(), images: Seq::empty(), in_title: false }
    } else {
        read_step(read_events(es.drop_last()), es.last())
    }
}

/// The document a Markdown text describes: what reading its events gives,
/// with the text trimmed.
pub open spec fn document_of_markdown(md: Seq<char>) -> HtmlDocumentView {
    document_of_events(markdown_events_of(md))
}

/// The document a sequence of Markdown events describes: what reading them
/// gives, with the text trimmed.
pub open spec fn document_of_events(es: Seq<MdEventView>) -> HtmlDocumentView {
    let s = read_events(es);
    HtmlDocumentView { title: s.title, content: trim(s.content), links: s.links, images: s.images }
}

/// The result of a conversion: text, or a document for the application to
/// serialize as JSON or YAML.
pub enum Converted {
    Text(String),
    Structured(HtmlDocument),
}

/// Reads a document from Markdown events: text inside a level-one heading
/// is the title, other text the content, and link targets and image sources
/// are listed in order.
pub fn document_from_events(events: &Vec<MdEvent>) -> (r: HtmlDocument)
    ensures
        r@ == document_of_events(event_views(events@)),
{
    let ghost es = event_views(events@);
    let mut title: Option<String> = None;
    let mut content: Vec<char> = Vec::new();
    let mut links: Vec<String> = Vec::new();
    let mut images: Vec<String> = Vec::new();
    let mut in_title = false;
    let mut i: usize = 0;
    assert(es.subrange(0, 0) =~= Seq::<MdEventView>::empty());
    assert(string_views(links@) =~= Seq::<Seq<char>>::empty());
    assert(string_views(images@) =~= Seq::<Seq<char>>::empty());
    while i < events.len()
        invariant
            i <= events@.len(),
            es == event_views(events@),
            read_events(es.subrange(0, i as int)) == (ReadState {
                title: match title {
                    Some(t) => Some(t@),
                    None => None,
                },
                content: content@,
                links: string_views(links@),
                images: string_views(images@),
                in_title,
            }),
        decreases events.len() - i,
    {
        assert(es.subrange(0, i + 1).drop_last() =~= es.subrange(0, i as int));
        assert(es.subrange(0, i + 1).last() == events@[i as int]@);
        match &events[i] {
            MdEvent::Start(MdTag::Heading(MdLevel::H1)) => {
                in_title = true;
            },
            MdEvent::End(MdTag::Heading(MdLevel::H1)) => {
                in_title = false;
            },
            MdEvent::Text(t) => {
                if in_title {
                    title = Some(t.clone());
                } else {
                    let ghost before = content@;
                    crate::text::append_str(&mut content, t.as_str());
                    content.push(' ');
                    assert(content@ =~= before + t@ + seq![' ']);
                }
            },
            MdEvent::Start(MdTag::Link(u, _)) => {
                let ghost before = string_views(links@);
                links.push(u.clone());
                assert(string_views(links@) =~= before.push(u@));
            },
            MdEvent::Start(MdTag::Image(u, _)) => {
                let ghost before = string_views(images@);
                images.push(u.clone());
                assert(string_views(images@) =~= before.push(u@));
            },
            MdEvent::End(MdTag::Paragraph) => {
                content.push('\n');
            },
            _ => {},
        }
        i = i + 1;
    }
    assert(es.subrange(0, i as int) =~= es);
    let text = crate::text::string_of(content.as_slice());
    HtmlDocument { title, content: trimmed(text.as_str()), links, images }
}

/// Search results are written as JSON or YAML only: any other format is an
/// `InvalidFormat` error.
pub fn search_results_format(format: Format) -> (r: Result<(), TarziError>)
    ensures
        match format {
            Format::Json | Format::Yaml => r is Ok,
            _ => r matches Err(TarziError::InvalidFormat(m)) && m@
                == "Only JSON and YAML formats supported for search results"@,
        },
{
    match format {
        Format::Json | Format::Yaml => Ok(()),
        _ => Err(TarziError::InvalidFormat(str_to_string("Only JSON and YAML formats supported for search results"))),
    }
}

/// Converts HTML into other formats.
#[derive(Debug, PartialEq, Eq, Clone, Structural)]
pub struct Converter;

impl Converter {
    pub fn new() -> (r: Converter) {
        Converter
    }

    /// The Markdown form of an HTML text.
    pub fn html_to_markdown(&self, html: &str) -> (r: Result<String, TarziError>)
        ensures
            r matches Ok(m) && m@ == markdown_of_html(html@),
    {
        Ok(markdown_text(html))
    }

    /// Reads the document that the Markdown form of an HTML text describes.
    pub fn parse_html_document(&self, html: &str) -> (r: HtmlDocument)
        ensures
            r@ == document_of_markdown(markdown_of_html(html@)),
    {
        let markdown = markdown_text(html);
        let events = markdown_events(markdown.as_str());
        document_from_events(&events)
    }

    /// Converts HTML into a format: HTML stays as it is, Markdown is
    /// `html2md`'s text, JSON and YAML get the document read from it.
    pub fn convert(&self, input: &str, format: Format) -> (r: Converted)
        ensures
            match format {
                Format::Html => r matches Converted::Text(t) && t@ == input@,
                Format::Markdown => r matches Converted::Text(t) && t@ == markdown_of_html(input@),
                _ => r matches Converted::Structured(d) && d@ == document_of_markdown(markdown_of_html(input@)),
            },
    {
        match format {
            Format::Html => Converted::Text(str_to_string(input)),
            Format::Markdown => Converted::Text(markdown_text(input)),
            _ => Converted::Structured(self.parse_html_document(input)),
        }
    }

    /// Converts with the format named in the configuration; an unknown name
    /// is an `InvalidFormat` error.
    pub fn convert_with_config(&self, input: &str, config: &Config) -> (r: Result<(Format, Converted), TarziError>)
        ensures
            match format_named(unicode_lowercase(config.fetcher.format@)) {
                None => r matches Err(TarziError::InvalidFormat(m)) && m@ == config.fetcher.format@,
                Some(f) => r matches Ok((g, c)) && g == f && match f {
                    Format::Html => c matches Converted::Text(t) && t@ == input@,
                    Format::Markdown => c matches Converted::Text(t) && t@ == markdown_of_html(input@),
                    _ => c matches Converted::Structured(d) && d@ == document_of_markdown(markdown_of_html(input@)),
                },
            },
    {
        let format = Format::parse(config.fetcher.format.as_str())?;
        Ok((format, self.convert(input, format)))
    }
}

impl Default for Converter {
    fn default() -> (r: Converter) {
        Converter::new()
    }
}

} // verus!
