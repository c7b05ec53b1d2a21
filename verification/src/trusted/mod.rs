//! The boundary to code that is not verified here: functions of std that
//! vstd says nothing of, and the crates this library builds on. Every
//! contract in this module is assumed, not proved.

pub mod ids;
pub mod index;
pub mod json;
pub mod links;
pub mod paths;
pub mod text;
