//! A search engine that asks a language-model completion service to write
//! its results, checks them against a fixed shape and keeps them per query.
pub mod error;
pub mod model;
pub mod cache;
pub mod json;
pub mod document;
pub mod engine;
pub mod laws;
