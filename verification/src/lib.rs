//! Lightweight types and tag mapping for the search indexing pipeline.

pub mod config;
pub mod index_types;
pub mod kind_tag;
