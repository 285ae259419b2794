pub mod bookmark_laws;
pub mod bookmark_parser;
pub mod browser;
pub mod metadata;
pub mod sync;
