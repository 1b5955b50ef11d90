//! The configurable parser for custom engines (shared with the unified
//! parsers).
pub use crate::parser::custom::{CustomParser, CustomParserConfig};
