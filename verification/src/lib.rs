//! Full-text search and suggestions over a read-only catalog of bookmarks.
//!
//! The catalog is loaded once, a search engine is built over it, and every
//! query is answered from that immutable snapshot. Two engines are offered:
//! a linear scan over the names and a ranked full-text index.

pub mod app;
pub mod application;
pub mod domain;
pub mod guarantees;
pub mod ports;
pub mod trusted;

pub use app::{App, AppInitialisationCause, AppInitialisationError};
