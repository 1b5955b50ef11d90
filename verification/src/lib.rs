pub mod config;
pub mod constants;
pub mod converter;
pub mod error;
pub mod fetcher;
pub mod html;
pub mod json;
pub mod laws;
pub mod offsets;
pub mod parser;
pub mod search;
pub mod text;
pub mod urls;

pub use error::{Result, TarziError};

pub use converter::{Converter, Format};
pub use fetcher::FetchMode;
pub use search::SearchResult;
