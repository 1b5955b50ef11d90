use std::str::FromStr;
use tarzi::config::Config;
use tarzi::converter::{document_from_events, search_results_format, Converted, Converter, Format, MdEvent, MdLevel, MdTag};

#[test]
fn converter_test_format_parsing() {
    // Test valid formats
    assert_eq!(Format::from_str("html").unwrap(), Format::Html);
    assert_eq!(Format::from_str("HTML").unwrap(), Format::Html);
    assert_eq!(Format::from_str("markdown").unwrap(), Format::Markdown);
    assert_eq!(Format::from_str("MARKDOWN").unwrap(), Format::Markdown);
    assert_eq!(Format::from_str("md").unwrap(), Format::Markdown);
    assert_eq!(Format::from_str("MD").unwrap(), Format::Markdown);
    assert_eq!(Format::from_str("json").unwrap(), Format::Json);
    assert_eq!(Format::from_str("JSON").unwrap(), Format::Json);
    assert_eq!(Format::from_str("yaml").unwrap(), Format::Yaml);
    assert_eq!(Format::from_str("YAML").unwrap(), Format::Yaml);
    assert_eq!(Format::from_str("yml").unwrap(), Format::Yaml);
    assert_eq!(Format::from_str("YML").unwrap(), Format::Yaml);

    // Test invalid formats
    assert!(Format::from_str("invalid").is_err());
    assert!(Format::from_str("").is_err());
    assert!(Format::from_str("xml").is_err());
}

#[test]
fn test_converter_creation() {
    let converter = Converter::new();
    assert_eq!(converter, Converter);
}

#[test]
fn test_converter_default() {
    let converter1 = Converter::new();
    let converter2 = Converter::new();
    assert_eq!(converter1, converter2);
}

#[test]
fn test_html_to_markdown() {
    let converter = Converter::new();

    // Test basic HTML conversion
    let html = "<h1>Hello World</h1>";
    let result = converter.html_to_markdown(html).unwrap();
    assert!(result.contains("Hello World"));

    // Test with paragraphs
    let html = "<p>This is a <strong>test</strong> paragraph.</p>";
    let result = converter.html_to_markdown(html).unwrap();
    assert!(result.contains("This is a"));
    assert!(result.contains("test"));

    // Test with links
    let html = "<a href=\"https://example.com\">Example Link</a>";
    let result = converter.html_to_markdown(html).unwrap();
    assert!(result.contains("Example Link"));
    assert!(result.contains("https://example.com"));

    // Test with images
    let html = "<img src=\"image.jpg\" alt=\"Test Image\">";
    let result = converter.html_to_markdown(html).unwrap();
    assert!(result.contains("image.jpg"));

    // Test empty HTML
    let result = converter.html_to_markdown("").unwrap();
    assert_eq!(result, "");
}

#[test]
fn converter_reads_documents() {
    let converter = Converter::new();
    let doc = converter.parse_html_document(
        "<h1>Main</h1><p>Some <a href=\"https://l.com\">link</a> text.</p><img src=\"pic.png\" alt=\"p\">",
    );
    assert_eq!(doc.title, Some("Main".to_string()));
    assert_eq!(doc.links, vec!["https://l.com".to_string()]);
    assert_eq!(doc.images, vec!["pic.png".to_string()]);
    assert!(doc.content.contains("Some"));
    assert!(doc.content.contains("link"));
    assert!(!doc.content.starts_with(' '));
    let empty = converter.parse_html_document("");
    assert_eq!(empty.title, None);
    assert_eq!(empty.content, "");
    assert!(empty.links.is_empty());
}

#[test]
fn converter_converts_by_format() {
    let converter = Converter::new();
    match converter.convert("<b>x</b>", Format::Html) {
        Converted::Text(t) => assert_eq!(t, "<b>x</b>"),
        Converted::Structured(_) => panic!("html stays text"),
    }
    match converter.convert("<h1>T</h1>", Format::Markdown) {
        Converted::Text(t) => assert!(t.contains('T')),
        Converted::Structured(_) => panic!("markdown is text"),
    }
    match converter.convert("<h1>T</h1>", Format::Json) {
        Converted::Structured(d) => assert_eq!(d.title, Some("T".to_string())),
        Converted::Text(_) => panic!("json is structured"),
    }
    let mut config = Config::new();
    config.fetcher.format = "XML".to_string();
    match converter.convert_with_config("<p>a</p>", &config) {
        Err(e) => assert_eq!(e.to_string(), "Invalid format: XML"),
        Ok(_) => panic!("unknown format accepted"),
    }
    config.fetcher.format = "Yml".to_string();
    match converter.convert_with_config("<p>a</p>", &config) {
        Ok((f, Converted::Structured(_))) => assert_eq!(f, Format::Yaml),
        _ => panic!("yaml expected"),
    }
}

#[test]
fn document_read_from_events() {
    let events = vec![
        MdEvent::Start(MdTag::Heading(MdLevel::H1)),
        MdEvent::Text("Title".to_string()),
        MdEvent::End(MdTag::Heading(MdLevel::H1)),
        MdEvent::Start(MdTag::Heading(MdLevel::H2)),
        MdEvent::Text("Sub".to_string()),
        MdEvent::End(MdTag::Heading(MdLevel::H2)),
        MdEvent::Start(MdTag::Paragraph),
        MdEvent::Text("First".to_string()),
        MdEvent::Start(MdTag::Link("https://a".to_string(), "t".to_string())),
        MdEvent::Text("link".to_string()),
        MdEvent::End(MdTag::Link("https://a".to_string(), "t".to_string())),
        MdEvent::End(MdTag::Paragraph),
        MdEvent::Start(MdTag::Image("img.png".to_string(), String::new())),
        MdEvent::Rule,
        MdEvent::Text("Last".to_string()),
    ];
    let doc = document_from_events(&events);
    assert_eq!(doc.title, Some("Title".to_string()));
    assert_eq!(doc.content, "Sub First link \nLast");
    assert_eq!(doc.links, vec!["https://a"]);
    assert_eq!(doc.images, vec!["img.png"]);
    let empty = document_from_events(&Vec::new());
    assert_eq!(empty.title, None);
    assert_eq!(empty.content, "");
}

#[test]
fn converter_subheadings_are_content() {
    let converter = Converter::new();
    let doc = converter.parse_html_document("<h1>Main</h1><h2>Sub</h2><p>Body</p>");
    assert_eq!(doc.title, Some("Main".to_string()));
    assert!(doc.content.contains("Sub"));
    assert!(doc.content.contains("Body"));
    assert!(!doc.content.contains("Main"));
}

#[test]
fn search_results_take_json_or_yaml_only() {
    assert!(search_results_format(Format::Json).is_ok());
    assert!(search_results_format(Format::Yaml).is_ok());
    for f in [Format::Html, Format::Markdown] {
        match search_results_format(f) {
            Err(tarzi::TarziError::InvalidFormat(m)) => {
                assert_eq!(m, "Only JSON and YAML formats supported for search results")
            },
            _ => panic!("refused format expected"),
        }
    }
}
