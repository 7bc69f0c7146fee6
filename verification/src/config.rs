//! The settings of a run.

use vstd::prelude::*;
use vstd::string::*;

verus! {

/// A setting that no run can be made with.
#[derive(Debug, Clone, Copy, PartialEq, Eq, Structural)]
pub enum ConfigError {
    /// A rate ceiling of zero requests per minute admits nothing.
    ZeroRequestsPerMinute,
    /// With no download slot no task could ever start.
    ZeroConcurrentDownloads,
}

/// Settings handed to the download service when it is built.
#[derive(Debug)]
pub struct AppConfig {
    pub base_url: String,
    pub requests_per_minute: u32,
    pub max_retries: u32,
    pub retry_delay_secs: u64,
    pub max_concurrent_downloads: usize,
}

impl AppConfig {
    /// The settings the exporter runs with unless told otherwise.
    pub fn new() -> (config: AppConfig)
        ensures
            config.base_url@ == "https://wago.tools/db2"@,
            config.requests_per_minute == 100,
            config.max_retries == 3,
            config.retry_delay_secs == 5,
            config.max_concurrent_downloads == 4,
            config.check() is Ok,
    {
        AppConfig {
            base_url: String::from_str("https://wago.tools/db2"),
            requests_per_minute: 100,
            max_retries: 3,
            retry_delay_secs: 5,
            max_concurrent_downloads: 4,
        }
    }

    /// What `validate` answers: the first setting, in declaration order, that
    /// is unusable.
    pub open spec fn check(&self) -> Result<(), ConfigError> {
        if self.requests_per_minute == 0 {
            Err(ConfigError::ZeroRequestsPerMinute)
        } else if self.max_concurrent_downloads == 0 {
            Err(ConfigError::ZeroConcurrentDownloads)
        } else {
            Ok(())
        }
    }

    /// Rejects settings with which no request could be sent or no task
    /// started. Every retry budget and every delay is usable.
    pub fn validate(&self) -> (verdict: Result<(), ConfigError>)
        ensures
            verdict == self.check(),
    {
        if self.requests_per_minute == 0 {
            Err(ConfigError::ZeroRequestsPerMinute)
        } else if self.max_concurrent_downloads == 0 {
            Err(ConfigError::ZeroConcurrentDownloads)
        } else {
            Ok(())
        }
    }
}

} // verus!
