//! Repository statistics report: query building, outcome formatting, and
//! panel rendering for a remote code-hosting service.
//!
//! The library is organised along the data flow: a [`query::SearchQuery`] is
//! built from typed predicates and optionally decorated with a credential;
//! the caller runs the fetches and hands each result back as a
//! [`outcome::FetchOutcome`]; [`stats`] turns the outcomes into display
//! lines; [`render`] merges those lines with a fixed-width art block.

pub mod config;
pub mod numbers;
pub mod outcome;
pub mod query;
pub mod remote_url;
pub mod render;
pub mod stats;
pub mod width;
