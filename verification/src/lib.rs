//! Verified core of a repository tree lister.
//!
//! The library holds the logic of the tool: parsing an `owner/repo`
//! identifier, resolving the access token, building the two API request
//! URLs, extracting the default branch from repository metadata, and
//! rendering a fetched tree as a flat text listing. The surrounding
//! binary performs the HTTP requests and the file or console output and
//! hands this library plain values.

pub mod api;
pub mod config;
pub mod errors;
pub mod ident;
pub mod model;
pub mod render;
pub mod text;
