//! The adapters around the domain: storage, search engines and the HTTP
//! surface.

pub mod http;
pub mod persistence;
pub mod search;
