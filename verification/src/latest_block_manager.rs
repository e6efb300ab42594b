//! A short-lived cache of the chain head.
//!
//! Every scanning loop owns one manager. The loop asks it for the head on
//! each iteration; the manager answers from its snapshot while the snapshot
//! is fresh and otherwise tells the loop to query the provider. Time is a
//! reading of the caller's monotonic clock, in milliseconds.

use vstd::prelude::*;

verus! {

/// Length of the freshness window that the loops use: ten seconds.
pub const HEAD_FRESHNESS_MILLIS: u64 = 10_000;

/// The chain head as last fetched, with the time of the fetch.
#[derive(Clone, Copy, Debug, PartialEq, Eq)]
pub struct LatestBlockManager {
    /// Block number of the last fetch, if there was one.
    pub value: Option<u64>,
    /// Clock reading at the last fetch.
    pub last_fetch: u64,
    /// Length of the freshness window.
    pub cache_duration: u64,
}

impl LatestBlockManager {
    /// Time elapsed at `now` since the last fetch. A clock reading that lies
    /// before the fetch counts as no time elapsed.
    pub open spec fn elapsed(&self, now: u64) -> int {
        if now >= self.last_fetch {
            now - self.last_fetch
        } else {
            0
        }
    }

    /// Whether the snapshot may still be used at `now`: there is one, and
    /// less than the window has elapsed since it was fetched.
    pub open spec fn is_fresh(&self, now: u64) -> bool {
        self.value is Some && self.elapsed(now) < self.cache_duration
    }

    /// What `get` answers at `now`.
    pub open spec fn lookup(&self, now: u64) -> Option<u64> {
        if self.is_fresh(now) {
            self.value
        } else {
            None
        }
    }

    /// The manager after a fetch at `now` returned `block`.
    pub open spec fn updated(&self, block: u64, now: u64) -> LatestBlockManager {
        LatestBlockManager {
            value: Some(block),
            last_fetch: now,
            cache_duration: self.cache_duration,
        }
    }

    /// A manager that holds no snapshot yet.
    pub fn new(cache_duration: u64) -> (manager: LatestBlockManager)
        ensures
            manager.value is None,
            manager.last_fetch == 0,
            manager.cache_duration == cache_duration,
            forall|now: u64| manager.lookup(now) is None,
    {
        LatestBlockManager { value: None, last_fetch: 0, cache_duration }
    }

    /// The cached head if the snapshot is fresh at `now`; `None` if the
    /// provider has to be asked.
    pub fn get(&self, now: u64) -> (head: Option<u64>)
        ensures
            head == self.lookup(now),
    {
        match self.value {
            Some(block) => {
                let elapsed: u64 = if now >= self.last_fetch {
                    now - self.last_fetch
                } else {
                    0
                };
                if elapsed < self.cache_duration {
                    Some(block)
                } else {
                    None
                }
            },
            None => None,
        }
    }

    /// Records that a query made at `now` returned `block`.
    pub fn update(&mut self, block: u64, now: u64)
        ensures
            *final(self) == old(self).updated(block, now),
    {
        self.value = Some(block);
        self.last_fetch = now;
    }
}

/// Within the freshness window every lookup gives the block number that was
/// fetched, so any two of them agree.
pub proof fn lemma_lookups_within_window_agree(
    manager: LatestBlockManager,
    first: u64,
    second: u64,
)
    requires
        manager.is_fresh(first),
        manager.is_fresh(second),
    ensures
        manager.lookup(first) == manager.value,
        manager.lookup(second) == manager.lookup(first),
{
}

/// Once the window has elapsed the manager asks for a query, and the answer
/// to that one query serves every lookup of the window that follows it.
pub proof fn lemma_one_query_per_window(
    manager: LatestBlockManager,
    expired: u64,
    block: u64,
    later: u64,
)
    requires
        manager.elapsed(expired) >= manager.cache_duration,
        expired <= later,
        later - expired < manager.cache_duration,
    ensures
        manager.lookup(expired) is None,
        manager.updated(block, expired).lookup(later) == Some(block),
{
}

} // verus!
