# tarzi

Lite web search for AI applications: convert HTML to Markdown, JSON or YAML,
fetch pages by plain request or through a browser, and search the web through
search engines' result pages or search APIs.

The library under `src/` is verified with Verus. It holds the logic: the
result parsers of each engine, URL normalization, the conversion of HTML into
documents, the search settings and retry decisions, the choice of API
providers and the reading of their answers, the configuration and proxy
choice, the web driver registry, and the steps by which drivers are found and
pages are read through a browser. Calls into `select`, `serde_json`, `url`,
`urlencoding`, `html2md`, `pulldown-cmark` and `regex` stand behind trusted
wrappers whose contracts say what those crates do.

`app/` is the `tarzi` command around the library: configuration files,
HTTP requests, web driver processes and browser sessions, and JSON/YAML
output.

Layout of `src/`:

- `search/` — engines, the web result parsers (`search/parser/`), search
  settings and decisions (`engine.rs`), API providers (`api.rs`)
- `parser/` — the unified web/API parsers and their factory
- `fetcher/` — fetch modes, web drivers (`driver.rs`), browser decisions
  (`browser.rs`), page reading (`page.rs`), external browsers (`external.rs`)
- `converter.rs`, `config.rs`, `error.rs`, `constants.rs`
- `text.rs`, `urls.rs`, `html.rs`, `json.rs`, `offsets.rs` — text, URL, HTML,
  JSON and UTF-8 models shared by the parsers
- `laws.rs` — properties of the library as a whole
