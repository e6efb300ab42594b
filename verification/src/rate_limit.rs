//! The request budget of one provider.
//!
//! Every provider has one limiter, shared by all tasks that use the
//! provider. Before a request goes out, the task asks the limiter; it is
//! either let through or told how long to wait before it asks again. The
//! limiter spaces the requests that it lets through evenly, so that no span
//! of one second ever holds more of them than the configured number. Time is
//! a reading of the caller's monotonic clock, in milliseconds.

use vstd::prelude::*;

verus! {

/// Number of milliseconds in the second that the rate is counted over.
pub const SECOND_MILLIS: u64 = 1_000;

/// The answer of a limiter to a request.
#[derive(Clone, Copy, Debug, PartialEq, Eq, Structural)]
pub enum Permit {
    /// The request may go out now.
    Granted,
    /// The request has to wait for this long and ask again.
    Wait { millis: u64 },
}

/// The least spacing, in milliseconds, that keeps requests at or below
/// `requests_per_second`: a second divided by the rate, rounded up, and at
/// least one millisecond.
pub open spec fn spacing(requests_per_second: u64) -> int {
    if requests_per_second >= SECOND_MILLIS {
        1
    } else {
        (SECOND_MILLIS + requests_per_second - 1) / (requests_per_second as int)
    }
}

/// The limiter of one provider.
#[derive(Clone, Copy, Debug, PartialEq, Eq)]
pub struct RateLimiter {
    /// The configured ceiling; never zero.
    pub requests_per_second: u64,
    /// Least time between two requests that are let through.
    pub interval: u64,
    /// When the last request was let through, if one was.
    pub last_granted: Option<u64>,
}

impl RateLimiter {
    /// The interval is the spacing that belongs to the rate.
    pub open spec fn wf(&self) -> bool {
        &&& self.requests_per_second > 0
        &&& self.interval == spacing(self.requests_per_second)
    }

    /// Time elapsed at `now` since `since`. A clock reading that lies before
    /// `since` counts as no time elapsed.
    pub open spec fn elapsed(since: u64, now: u64) -> int {
        if now >= since {
            now - since
        } else {
            0
        }
    }

    /// Whether a request at `now` is let through: it is the first one, or
    /// the interval has passed since the last one that was.
    pub open spec fn admits(&self, now: u64) -> bool {
        match self.last_granted {
            Some(last) => Self::elapsed(last, now) >= self.interval,
            None => true,
        }
    }

    /// The limiter after a request at `now`, and the answer to the request.
    pub open spec fn step(self, now: u64) -> (RateLimiter, Permit) {
        if self.admits(now) {
            (RateLimiter { last_granted: Some(now), ..self }, Permit::Granted)
        } else {
            (
                self,
                Permit::Wait {
                    millis: (self.interval - Self::elapsed(self.last_granted.unwrap(), now)) as u64,
                },
            )
        }
    }

    /// A limiter for the given rate that has let nothing through yet, or
    /// `None` for a rate of zero, which no limiter can keep.
    pub fn new(requests_per_second: u64) -> (limiter: Option<RateLimiter>)
        ensures
            requests_per_second == 0 <==> limiter is None,
            limiter matches Some(l) ==> {
                &&& l.wf()
                &&& l.requests_per_second == requests_per_second
                &&& l.last_granted is None
                &&& 1 <= l.interval <= SECOND_MILLIS
                &&& l.interval * requests_per_second >= SECOND_MILLIS
            },
    {
        if requests_per_second == 0 {
            return None;
        }
        let interval: u64 = if requests_per_second >= SECOND_MILLIS {
            1
        } else {
            (SECOND_MILLIS + requests_per_second - 1) / requests_per_second
        };
        proof {
            lemma_spacing_keeps_the_rate(requests_per_second);
        }
        Some(RateLimiter { requests_per_second, interval, last_granted: None })
    }

    /// Answers a request made at `now`.
    pub fn acquire(&mut self, now: u64) -> (permit: Permit)
        ensures
            (*final(self), permit) == old(self).step(now),
            old(self).wf() ==> final(self).wf(),
            permit matches Permit::Wait { millis } ==> 0 < millis <= old(self).interval,
    {
        match self.last_granted {
            Some(last) => {
                let elapsed: u64 = if now >= last {
                    now - last
                } else {
                    0
                };
                if elapsed >= self.interval {
                    self.last_granted = Some(now);
                    Permit::Granted
                } else {
                    Permit::Wait { millis: self.interval - elapsed }
                }
            },
            None => {
                self.last_granted = Some(now);
                Permit::Granted
            },
        }
    }
}

/// The times at which a limiter lets requests through when it is asked at
/// the times `asked`, in this order.
pub open spec fn granted(limiter: RateLimiter, asked: Seq<u64>) -> Seq<u64>
    decreases asked.len(),
{
    if asked.len() == 0 {
        Seq::empty()
    } else {
        let (next, permit) = limiter.step(asked[0]);
        let rest = granted(next, asked.drop_first());
        if permit == Permit::Granted {
            seq![asked[0]] + rest
        } else {
            rest
        }
    }
}

/// Whether each time in `times` lies at least `interval` after the one
/// before it.
pub open spec fn spaced(times: Seq<u64>, interval: int) -> bool {
    forall|i: int, j: int|
        0 <= i && j == i + 1 && j < times.len() ==> #[trigger] times[j] - #[trigger] times[i]
            >= interval
}

/// The spacing of a rate is between a millisecond and a second, and as many
/// spacings as the rate allows requests fill a second.
pub proof fn lemma_spacing_keeps_the_rate(requests_per_second: u64)
    requires
        requests_per_second > 0,
    ensures
        1 <= spacing(requests_per_second) <= SECOND_MILLIS,
        spacing(requests_per_second) * requests_per_second >= SECOND_MILLIS,
{
    let r = requests_per_second as int;
    if requests_per_second < SECOND_MILLIS {
        let q = (1000 + r - 1) / r;
        assert(q * r >= 1000 && 1 <= q <= 1000) by (nonlinear_arith)
            requires
                0 < r < 1000,
                q == (1000 + r - 1) / r,
        ;
    } else {
        assert(1 * r >= 1000);
    }
}

/// Whatever the times at which a limiter is asked, and whoever asks, the
/// requests that it lets through are at least its interval apart, and the
/// first of them is at least the interval after the last one let through
/// before.
pub proof fn lemma_granted_requests_are_spaced(limiter: RateLimiter, asked: Seq<u64>)
    requires
        limiter.interval > 0,
    ensures
        spaced(granted(limiter, asked), limiter.interval as int),
        granted(limiter, asked).len() <= asked.len(),
        granted(limiter, asked).len() > 0 ==> limiter.admits(granted(limiter, asked)[0]),
    decreases asked.len(),
{
    if asked.len() > 0 {
        let (next, permit) = limiter.step(asked[0]);
        let rest = granted(next, asked.drop_first());
        lemma_granted_requests_are_spaced(next, asked.drop_first());
        if permit == Permit::Granted {
            let all = seq![asked[0]] + rest;
            assert forall|i: int, j: int|
                0 <= i && j == i + 1 && j < all.len() implies #[trigger] all[j]
                - #[trigger] all[i] >= limiter.interval by {
                if i == 0 {
                    assert(all[1] == rest[0]);
                    assert(next.admits(rest[0]));
                } else {
                    assert(all[j] == rest[j - 1]);
                    assert(all[i] == rest[i - 1]);
                }
            }
        }
    }
}

/// Times that are `interval` apart spread out: `count` steps further along
/// the list, at least `count` intervals have passed.
pub proof fn lemma_spaced_times_spread(times: Seq<u64>, interval: int, first: int, count: int)
    requires
        spaced(times, interval),
        0 <= first,
        0 <= count,
        first + count < times.len(),
    ensures
        times[first + count] - times[first] >= count * interval,
    decreases count,
{
    if count > 0 {
        lemma_spaced_times_spread(times, interval, first, count - 1);
        assert(times[first + count] - times[first + count - 1] >= interval);
        assert(count * interval == (count - 1) * interval + interval) by (nonlinear_arith);
    } else {
        assert(count * interval == 0) by (nonlinear_arith)
            requires
                count == 0,
        ;
    }
}

/// However many requests are made to one limiter, and by however many
/// tasks, no second holds more of the requests it lets through than the
/// configured number: after any request that went out, the one that goes out
/// `requests_per_second` places later does so a full second later or more.
pub proof fn lemma_rate_is_never_exceeded(limiter: RateLimiter, asked: Seq<u64>, first: int)
    requires
        limiter.wf(),
        0 <= first,
        first + limiter.requests_per_second < granted(limiter, asked).len(),
    ensures
        granted(limiter, asked)[first + limiter.requests_per_second] - granted(
            limiter,
            asked,
        )[first] >= SECOND_MILLIS,
{
    let times = granted(limiter, asked);
    let rate = limiter.requests_per_second as int;
    let interval = limiter.interval as int;
    lemma_spacing_keeps_the_rate(limiter.requests_per_second);
    lemma_granted_requests_are_spaced(limiter, asked);
    lemma_spaced_times_spread(times, interval, first, rate);
    assert(rate * interval == interval * rate) by (nonlinear_arith);
}

} // verus!
