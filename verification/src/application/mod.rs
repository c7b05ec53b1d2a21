//! The application service: one search engine behind the two questions the
//! HTTP surface asks, where a term leads and what it suggests.

pub mod error;
pub mod service;
