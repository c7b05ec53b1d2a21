//! The linear scan engine: every query walks the whole catalog and keeps
//! the bookmarks whose name contains the term, whatever the case of the
//! letters. Descriptions and tags are not looked at.

pub mod bookmark;
pub mod error;
pub mod simple_bookmark_search_engine_adapter;
