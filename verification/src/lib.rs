//! Orchestration engine of a batch exporter that fetches one CSV file per
//! (table, build, locale) combination.
//!
//! What is in here decides; it does not act. Clocks, sleeping, the network
//! and the filesystem belong to the caller, which performs the actions this
//! crate asks for and reports back what happened. The one thing taken from
//! the HTTP client is the wording of a status in a failure report.

pub mod build_selection;
pub mod config;
pub mod download_task;
pub mod downloader;
pub mod entities;
pub mod fetch;
pub mod file;
pub mod locale;
pub mod outcome;
pub mod rate_limiter;
pub mod retry;
pub mod scheduler;
pub mod status;
pub mod text;
