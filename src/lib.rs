//! Project classification, structural outlines and keyword relevance for
//! source trees: the library decides, its callers walk the disk.
pub mod text;
pub mod pattern;
pub mod search;
pub mod parser;
pub mod structure;
pub mod summary;
pub mod edit;
pub mod context;
pub mod config;
pub mod executor;
