//! The two search engines: a linear scan and a ranked full-text index.

pub mod indexed;
pub mod simple;
