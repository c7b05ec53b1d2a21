//! The repository that is loaded once from a catalog file.

pub mod catalog;
pub mod file_system_bookmark_repository_adapter;
pub mod memory_bookmark;
pub mod persistence_bookmark;
