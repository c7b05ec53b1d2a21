//! What the two endpoints answer. A reply is a plain value here; putting it
//! on the wire is left to the server that hosts the library.

pub mod disable_caching;
pub mod reply;
pub mod search;
pub mod search_error_handling;
pub mod suggestions;
