//! The indexed full-text engine. Names, descriptions and tags are cut into
//! words and indexed once; a query is ranked by the index, which answers
//! with identifiers only, and each identifier is then resolved through the
//! repository.

pub mod document;
pub mod error;
pub mod resolution;
pub mod tantivy_bookmark_search_engine_adapter;
