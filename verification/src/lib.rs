//! Reading mod metadata out of jar archives and registry responses.

pub mod document;
pub mod jar;
pub mod metadata;
pub mod registry;
pub mod rspc;
