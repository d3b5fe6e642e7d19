//! Per-call options of a translation.

use std::time::Duration;
use vstd::prelude::*;

verus! {

/// Number of retries when none is configured.
pub const DEFAULT_MAX_RETRIES: u32 = 3;

/// Request timeout, in seconds, when none is configured.
pub const DEFAULT_TIMEOUT_SECS: u64 = 30;

/// The value of `Duration::from_secs` on a number of seconds.
pub uninterp spec fn duration_of_secs(secs: u64) -> Duration;

/// Relies on `Duration::from_secs`: a duration of the given whole seconds.
#[verifier::external_body]
fn seconds(secs: u64) -> (r: Duration)
    ensures
        r == duration_of_secs(secs),
{
    Duration::from_secs(secs)
}

/// Options of one translation call; immutable once handed to an operation.
#[derive(Debug, Clone)]
pub struct TranslateOptions {
    /// Request timeout; `None` means no timeout.
    pub timeout: Option<Duration>,
    /// Retries after the first attempt; 0 means a single attempt.
    pub max_retries: u32,
}

impl Default for TranslateOptions {
    /// A 30-second timeout and 3 retries.
    fn default() -> (r: TranslateOptions)
        ensures
            r.timeout == Some(duration_of_secs(DEFAULT_TIMEOUT_SECS)),
            r.max_retries == DEFAULT_MAX_RETRIES,
    {
        TranslateOptions { timeout: Some(seconds(DEFAULT_TIMEOUT_SECS)), max_retries: DEFAULT_MAX_RETRIES }
    }
}

impl TranslateOptions {
    /// Sets the request timeout.
    pub fn timeout(self, timeout: Duration) -> (r: TranslateOptions)
        ensures
            r.timeout == Some(timeout),
            r.max_retries == self.max_retries,
    {
        let mut s = self;
        s.timeout = Some(timeout);
        s
    }

    /// Removes the request timeout.
    pub fn no_timeout(self) -> (r: TranslateOptions)
        ensures
            r.timeout.is_none(),
            r.max_retries == self.max_retries,
    {
        let mut s = self;
        s.timeout = None;
        s
    }

    /// Sets the number of retries after the first attempt.
    pub fn max_retries(self, max_retries: u32) -> (r: TranslateOptions)
        ensures
            r.max_retries == max_retries,
            r.timeout == self.timeout,
    {
        let mut s = self;
        s.max_retries = max_retries;
        s
    }

    /// Allows the first attempt only.
    pub fn no_retries(self) -> (r: TranslateOptions)
        ensures
            r.max_retries == 0,
            r.timeout == self.timeout,
    {
        let mut s = self;
        s.max_retries = 0;
        s
    }
}

} // verus!
