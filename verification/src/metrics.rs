//! Agent metrics: process-wide monotonic counters and the last-refresh
//! gauge. Counters saturate instead of wrapping, so they never move
//! backwards.

use vstd::prelude::*;

verus! {

/// Monotonic counters and gauges kept by the agent.
///
/// Counter fields only ever grow (by saturating increments); the
/// `last_refresh` gauge holds the UTC seconds of the last tick.
pub struct Metrics {
    /// Attempts to query the cached deployment-tool status.
    pub status_cache_attempts: u64,
    /// Times the cached status was stale during a query.
    pub status_cache_misses: u64,
    /// Invocations of the deployment tool for a status.
    pub status_attempts: u64,
    /// Failed invocations of the deployment tool for a status.
    pub status_failures: u64,
    /// Attempts to finalize a staged deployment.
    pub finalization_attempts: u64,
    /// Finalization attempts blocked by active interactive user sessions.
    pub finalization_blocked_usersessions: u64,
    /// Successful finalizations.
    pub finalization_successes: u64,
    /// UTC seconds of the agent's last refresh tick.
    pub last_refresh: i64,
}

impl Metrics {
    pub fn new() -> (r: Self)
        ensures
            r == (Metrics {
                status_cache_attempts: 0u64,
                status_cache_misses: 0u64,
                status_attempts: 0u64,
                status_failures: 0u64,
                finalization_attempts: 0u64,
                finalization_blocked_usersessions: 0u64,
                finalization_successes: 0u64,
                last_refresh: 0i64,
            }),
    {
        Metrics {
            status_cache_attempts: 0,
            status_cache_misses: 0,
            status_attempts: 0,
            status_failures: 0,
            finalization_attempts: 0,
            finalization_blocked_usersessions: 0,
            finalization_successes: 0,
            last_refresh: 0,
        }
    }

    /// Count one invocation of the deployment tool for a status.
    pub fn inc_status_attempts(&mut self)
        ensures
            *final(self) == (Metrics {
                status_attempts: old(self).status_attempts.saturating_add(1),
                ..*old(self)
            }),
    {
        self.status_attempts = self.status_attempts.saturating_add(1);
    }

    /// Count one failed invocation of the deployment tool.
    pub fn inc_status_failures(&mut self)
        ensures
            *final(self) == (Metrics {
                status_failures: old(self).status_failures.saturating_add(1),
                ..*old(self)
            }),
    {
        self.status_failures = self.status_failures.saturating_add(1);
    }

    /// Publish the timestamp of the current tick.
    pub fn set_last_refresh(&mut self, now: i64)
        ensures
            *final(self) == (Metrics { last_refresh: now, ..*old(self) }),
    {
        self.last_refresh = now;
    }
}

} // verus!
