//! The bookmark entity and the two ports the rest of the library is built
//! against: where bookmarks come from and how they are searched.

pub mod bookmark;
pub mod bookmark_factory;
pub mod bookmark_repository;
pub mod bookmark_search_engine;
