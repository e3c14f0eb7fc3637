//! A small object runtime: paged memory, slot-based objects with prototype
//! links and a call table, string-keyed tables, and typed box stores.

pub mod memory;
pub mod object;
pub mod util;
pub mod runtime;
pub mod init;
pub mod types;
pub mod typeshit;
pub mod system;
pub mod text;
