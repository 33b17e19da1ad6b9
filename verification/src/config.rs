//! The push configuration, and what starting the push task amounts to.
//!
//! Without a configuration nothing is pushed, which is no error. With one,
//! the push URL must be an absolute URL: a malformed one is refused before
//! anything starts.

use vstd::prelude::*;
use crate::scheduler::{period_of, PushScheduler, SchedulerModel};

verus! {

/// The interval between two pushes where the configuration names none.
pub const DEFAULT_PUSH_INTERVAL_SECONDS: u64 = 60;

/// The push configuration.
#[derive(Clone, Debug, PartialEq, Eq)]
pub struct MetricsConfig {
    /// Seconds between two pushes; positive where given.
    pub push_interval_seconds: Option<u64>,
    /// The absolute URL to push to.
    pub push_url: String,
}

/// Why the push task cannot start.
#[derive(Clone, Copy, Debug, PartialEq, Eq, Structural)]
pub enum ConfigError {
    /// The push URL is not an absolute URL.
    MalformedUrl,
}

/// A push task that is ready to start: where to push, and the scheduler,
/// still idle.
#[derive(Debug, PartialEq, Eq)]
pub struct PushTask {
    /// The push URL as it was parsed and written out again.
    pub url: String,
    pub scheduler: PushScheduler,
}

/// The error of `Url::parse`, opaque here.
#[verifier::external_type_specification]
#[verifier::external_body]
pub struct ExUrlParseError(url::ParseError);

/// What `Url::parse` makes of a text: the URL, written out as `Url::as_str`
/// gives it, or `None` where the text is no absolute URL.
pub uninterp spec fn parsed_url(text: Seq<char>) -> Option<Seq<char>>;

/// `reqwest::Url::parse`, which is `Url::parse` of the `url` crate, and
/// `String::from` on the URL it returns. The outcome is a function of the
/// text alone.
#[verifier::external_body]
fn parse_url(text: &str) -> (r: Result<String, url::ParseError>)
    ensures
        match r {
            Ok(url) => parsed_url(text@) == Some(url@),
            Err(_) => parsed_url(text@).is_none(),
        },
{
    match reqwest::Url::parse(text) {
        Ok(url) => Ok(String::from(url)),
        Err(e) => Err(e),
    }
}

impl MetricsConfig {
    /// The interval that the configuration asks for.
    pub open spec fn interval_seconds(self) -> u64 {
        match self.push_interval_seconds {
            Some(seconds) => seconds,
            None => DEFAULT_PUSH_INTERVAL_SECONDS,
        }
    }

    /// A given interval is positive.
    pub open spec fn wf(self) -> bool {
        self.push_interval_seconds != Some(0u64)
    }

    /// The interval between two pushes, in seconds: the configured one, or
    /// the default.
    pub fn push_interval(&self) -> (seconds: u64)
        ensures
            seconds == self.interval_seconds(),
    {
        match self.push_interval_seconds {
            Some(seconds) => seconds,
            None => DEFAULT_PUSH_INTERVAL_SECONDS,
        }
    }
}

impl PushTask {
    /// The task for a configuration whose push URL was parsed with the
    /// outcome `url`: none where the URL was malformed.
    pub fn from_parsed(config: &MetricsConfig, url: Option<String>) -> (r: Result<PushTask, ConfigError>)
        requires
            config.wf(),
        ensures
            url is None ==> r == Err::<PushTask, ConfigError>(ConfigError::MalformedUrl),
            url matches Some(u) ==> {
                &&& r matches Ok(task)
                &&& task.url == u
                &&& task.scheduler@ == SchedulerModel::idle(period_of(config.interval_seconds()))
                &&& task.scheduler@.wf()
            },
    {
        match url {
            None => Err(ConfigError::MalformedUrl),
            Some(url) => Ok(PushTask { url, scheduler: PushScheduler::new(config.push_interval()) }),
        }
    }
}

/// Decides what starting the metrics push task amounts to. Without a
/// configuration there is no task, and nothing will be pushed. With a
/// malformed push URL the start fails and there is no task either. Otherwise
/// the task pushes to the configured URL at the configured interval.
pub fn start_metrics_push_task(metrics_config: &Option<MetricsConfig>) -> (r: Result<
    Option<PushTask>,
    ConfigError,
>)
    requires
        metrics_config matches Some(config) ==> config.wf(),
    ensures
        metrics_config is None ==> r == Ok::<Option<PushTask>, ConfigError>(None),
        metrics_config matches Some(config) ==> match parsed_url(config.push_url@) {
            None => r == Err::<Option<PushTask>, ConfigError>(ConfigError::MalformedUrl),
            Some(url) => {
                &&& r matches Ok(Some(task))
                &&& task.url@ == url
                &&& task.scheduler@ == SchedulerModel::idle(period_of(config.interval_seconds()))
                &&& task.scheduler@.wf()
            },
        },
{
    match metrics_config {
        None => Ok(None),
        Some(config) => {
            let url = match parse_url(config.push_url.as_str()) {
                Ok(url) => Some(url),
                Err(_) => None,
            };
            match PushTask::from_parsed(config, url) {
                Ok(task) => Ok(Some(task)),
                Err(e) => Err(e),
            }
        },
    }
}

} // verus!
