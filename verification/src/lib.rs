//! Verified core of a browser-history backup tool: progress reporting,
//! the per-file backup procedure, and the decisions behind the web API.
pub mod text;
pub mod types;
pub mod progress;
pub mod backup;
pub mod web;
