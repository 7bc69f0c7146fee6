//! The download service: the settings of a run in one place, and the entry
//! points from which a driver gets its decisions.

use vstd::prelude::*;
use vstd::string::*;
use crate::config::{AppConfig, ConfigError};
use crate::download_task::DownloadTask;
use crate::entities::Build;
use crate::fetch::{FetchAttempt, FetchStage};
use crate::outcome::FetchOutcome;
use crate::rate_limiter::{LimiterModel, Permit, RateLimiter};
use crate::retry::{RetryPolicy, RetryStep};
use crate::scheduler::{expand_tasks, is_expansion, Scheduler};

verus! {

/// Base address, rate limiter, retry budget and number of download slots of
/// a run.
pub struct DownloadService {
    base_url: String,
    rate_limiter: RateLimiter,
    max_retries: u32,
    retry_delay_secs: u64,
    max_concurrent_downloads: usize,
}

impl DownloadService {
    /// The address below which tables are requested.
    pub closed spec fn base_url(&self) -> Seq<char> {
        self.base_url@
    }

    /// The state of the rate limiter.
    pub closed spec fn limiter(&self) -> LimiterModel {
        self.rate_limiter@
    }

    /// The retry budget and delay.
    pub closed spec fn policy(&self) -> RetryPolicy {
        RetryPolicy { max_retries: self.max_retries, retry_delay_secs: self.retry_delay_secs }
    }

    /// Number of download slots.
    pub closed spec fn slots(&self) -> usize {
        self.max_concurrent_downloads
    }

    /// A service is usable when its limiter is well-formed and it has a
    /// download slot.
    pub open spec fn wf(&self) -> bool {
        &&& self.limiter().wf()
        &&& self.slots() >= 1
    }

    /// A service for `base_url` with the stock settings: one hundred
    /// requests per minute, three retries five seconds apart, four download
    /// slots. The limiter's first window begins at `now`.
    pub fn new(base_url: String, now: u64) -> (made: Result<DownloadService, ConfigError>)
        ensures
            made is Ok,
            made.unwrap().wf(),
            made.unwrap().base_url() == base_url@,
            made.unwrap().limiter() == (LimiterModel {
                requests_per_minute: 100,
                window_start: now,
                requests_made: 0,
            }),
            made.unwrap().policy() == (RetryPolicy { max_retries: 3, retry_delay_secs: 5 }),
            made.unwrap().slots() == 4,
    {
        let rate_limiter = RateLimiter::new(100, now)?;
        Ok(
            DownloadService {
                base_url,
                rate_limiter,
                max_retries: 3,
                retry_delay_secs: 5,
                max_concurrent_downloads: 4,
            },
        )
    }

    /// A service with the settings of `config`, or the reason why no run can
    /// be made with them.
    pub fn from_config(config: AppConfig, now: u64) -> (made: Result<DownloadService, ConfigError>)
        ensures
            config.check() matches Err(e) ==> made == Err::<DownloadService, ConfigError>(e),
            config.check() is Ok ==> {
                &&& made is Ok
                &&& made.unwrap().wf()
                &&& made.unwrap().base_url() == config.base_url@
                &&& made.unwrap().limiter() == (LimiterModel {
                    requests_per_minute: config.requests_per_minute,
                    window_start: now,
                    requests_made: 0,
                })
                &&& made.unwrap().policy() == (RetryPolicy {
                    max_retries: config.max_retries,
                    retry_delay_secs: config.retry_delay_secs,
                })
                &&& made.unwrap().slots() == config.max_concurrent_downloads
            },
    {
        match config.validate() {
            Err(e) => Err(e),
            Ok(()) => {
                match RateLimiter::new(config.requests_per_minute, now) {
                    Err(e) => Err(e),
                    Ok(rate_limiter) => Ok(
                        DownloadService {
                            base_url: config.base_url,
                            rate_limiter,
                            max_retries: config.max_retries,
                            retry_delay_secs: config.retry_delay_secs,
                            max_concurrent_downloads: config.max_concurrent_downloads,
                        },
                    ),
                }
            },
        }
    }

    /// Replaces the rate limiter by a fresh one for `requests_per_minute`
    /// whose first window begins at `now`. A ceiling of zero is refused and
    /// leaves the service as it was.
    pub fn set_rate_limit(&mut self, requests_per_minute: u32, now: u64) -> (set: Result<
        (),
        ConfigError,
    >)
        ensures
            final(self).base_url() == old(self).base_url(),
            final(self).policy() == old(self).policy(),
            final(self).slots() == old(self).slots(),
            requests_per_minute == 0 ==> set == Err::<(), ConfigError>(
                ConfigError::ZeroRequestsPerMinute,
            ) && final(self).limiter() == old(self).limiter(),
            requests_per_minute > 0 ==> set is Ok && final(self).limiter() == (LimiterModel {
                requests_per_minute,
                window_start: now,
                requests_made: 0,
            }),
    {
        match RateLimiter::new(requests_per_minute, now) {
            Err(e) => Err(e),
            Ok(rate_limiter) => {
                self.rate_limiter = rate_limiter;
                Ok(())
            },
        }
    }

    /// Sets the retry budget and the pause before each retry. Every budget,
    /// none at all included, and every pause is usable.
    pub fn set_retry_params(&mut self, max_retries: u32, retry_delay_secs: u64)
        ensures
            final(self).policy() == (RetryPolicy { max_retries, retry_delay_secs }),
            final(self).base_url() == old(self).base_url(),
            final(self).limiter() == old(self).limiter(),
            final(self).slots() == old(self).slots(),
    {
        self.max_retries = max_retries;
        self.retry_delay_secs = retry_delay_secs;
    }

    /// Sets the number of download slots. Zero is refused and leaves the
    /// service as it was.
    pub fn set_concurrent_downloads(&mut self, count: usize) -> (set: Result<(), ConfigError>)
        ensures
            final(self).base_url() == old(self).base_url(),
            final(self).limiter() == old(self).limiter(),
            final(self).policy() == old(self).policy(),
            count == 0 ==> set == Err::<(), ConfigError>(ConfigError::ZeroConcurrentDownloads)
                && final(self).slots() == old(self).slots(),
            count > 0 ==> set is Ok && final(self).slots() == count,
    {
        if count == 0 {
            Err(ConfigError::ZeroConcurrentDownloads)
        } else {
            self.max_concurrent_downloads = count;
            Ok(())
        }
    }

    /// Asks the shared rate limiter for a send permit at time `now`.
    pub fn acquire_permit(&mut self, now: u64) -> (permit: Permit)
        ensures
            permit == old(self).limiter().permit_at(now),
            final(self).limiter() == old(self).limiter().after(now),
            old(self).wf() ==> final(self).wf(),
            final(self).base_url() == old(self).base_url(),
            final(self).policy() == old(self).policy(),
            final(self).slots() == old(self).slots(),
    {
        self.rate_limiter.wait(now)
    }

    /// The rate limiter, to look at.
    pub fn rate_limiter(&self) -> (limiter: &RateLimiter)
        ensures
            limiter@ == self.limiter(),
    {
        &self.rate_limiter
    }

    /// Number of download slots.
    pub fn concurrent_downloads(&self) -> (count: usize)
        ensures
            count == self.slots(),
    {
        self.max_concurrent_downloads
    }

    /// The retry policy of this service.
    pub fn retry_policy(&self) -> (policy: RetryPolicy)
        ensures
            policy == self.policy(),
    {
        RetryPolicy::new(self.max_retries, self.retry_delay_secs)
    }

    /// Starts one attempt to fetch `table` of `build` in `locale`. The
    /// attempt begins by asking for a send permit.
    pub fn download_csv(&self, table: &str, build: &Build, locale: &str) -> (attempt: FetchAttempt)
        ensures
            attempt.task().table@ == table@,
            attempt.task().build == *build,
            attempt.task().locale@ == locale@,
            attempt.base_url() == self.base_url(),
            attempt.stage() == FetchStage::AwaitPermit,
    {
        let task = DownloadTask::new(
            String::from_str(table),
            build.clone(),
            String::from_str(locale),
        );
        FetchAttempt::new(task, self.base_url.clone())
    }

    /// Decides, after an attempt for `task` that ended in `outcome` with
    /// `retries_used` retries spent, whether the task is over or is attempted
    /// again.
    pub fn download_with_retry(
        &self,
        task: &DownloadTask,
        retries_used: u32,
        outcome: FetchOutcome,
    ) -> (next: RetryStep)
        ensures
            next == self.policy().step(*task, retries_used as nat, outcome),
    {
        self.retry_policy().decide(task, retries_used, outcome)
    }

    /// Sets up the run for every combination of `builds`, `locales` and
    /// `tables`: one task each, none started yet, and as many download slots
    /// as this service has. The driver starts what the scheduler dispatches
    /// and reports each task's outcome to it.
    pub fn download_all(
        &self,
        tables: &Vec<String>,
        builds: &Vec<Build>,
        locales: &Vec<String>,
    ) -> (run: Result<Scheduler, ConfigError>)
        ensures
            self.slots() == 0 <==> run is Err,
            run is Err ==> run == Err::<Scheduler, ConfigError>(
                ConfigError::ZeroConcurrentDownloads,
            ),
            run matches Ok(s) ==> {
                &&& s.wf()
                &&& is_expansion(s.tasks(), tables@, builds@, locales@)
                &&& s.capacity() == self.slots()
                &&& s.admitted() == 0
                &&& s.in_flight() == 0
                &&& s.tally().total == builds@.len() * locales@.len() * tables@.len()
                &&& s.tally().completed() == 0
            },
    {
        let tasks = expand_tasks(tables, builds, locales);
        Scheduler::new(tasks, self.max_concurrent_downloads)
    }
}

} // verus!
