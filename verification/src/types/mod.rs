//! The built-in types: lists, strings and tables.

pub mod list;
pub mod string;
pub mod table;
