use vstd::prelude::*;

verus! {

/// The most requests sent to the Wise Old Man API in one minute.
pub const RATE_LIMIT: i32 = 100;

/// One minute, in nanoseconds.
pub const ONE_MINUTE_NANOS: i64 = 60_000_000_000;

/// Keeps requests to the Wise Old Man API within the rate limit: it counts the requests sent in
/// the current window, which ends at `one_minute_from_now` (nanoseconds since the Unix epoch).
pub struct ApiLimiter {
    pub one_minute_from_now: i64,
    pub requests_sent: i32,
}

/// The window as it stands at `now`: a window that has ended gives way to a new one, a minute
/// long, with nothing sent yet.
pub open spec fn window_at(l: ApiLimiter, now: i64) -> (i64, i32) {
    if now > l.one_minute_from_now {
        ((now + ONE_MINUTE_NANOS) as i64, 0)
    } else {
        (l.one_minute_from_now, l.requests_sent)
    }
}

impl ApiLimiter {
    /// A limiter whose first window begins at `now`.
    pub fn new(now: i64) -> (r: Self)
        requires
            now <= i64::MAX - ONE_MINUTE_NANOS,
        ensures
            r.one_minute_from_now == now + ONE_MINUTE_NANOS,
            r.requests_sent == 0,
    {
        ApiLimiter { one_minute_from_now: now + ONE_MINUTE_NANOS, requests_sent: 0 }
    }

    /// Accounts for a request about to be sent at `now`. Where the window still has room the
    /// request is counted and may go ahead (`None`); where the limit is reached, the answer is
    /// how long to wait, in nanoseconds, after which `resume_after_wait` is called.
    pub fn start_request(&mut self, now: i64) -> (wait: Option<u64>)
        requires
            now <= i64::MAX - ONE_MINUTE_NANOS,
        ensures
            *final(self) == after_request(*old(self), now),
            now <= final(self).one_minute_from_now,
            wait == (if goes_ahead(*old(self), now) {
                None
            } else {
                Some((final(self).one_minute_from_now - now) as u64)
            }),
    {
        if now > self.one_minute_from_now {
            self.requests_sent = 0;
            self.one_minute_from_now = now + ONE_MINUTE_NANOS;
        }
        if self.requests_sent >= RATE_LIMIT {
            let wait = (self.one_minute_from_now as i128 - now as i128) as u64;
            return Some(wait);
        }
        self.requests_sent = self.requests_sent + 1;
        None
    }

    /// After waiting out a full window: a new window begins at `now`, with this request counted.
    pub fn resume_after_wait(&mut self, now: i64)
        requires
            now <= i64::MAX - ONE_MINUTE_NANOS,
        ensures
            final(self).one_minute_from_now == now + ONE_MINUTE_NANOS,
            final(self).requests_sent == 1,
    {
        self.requests_sent = 0;
        self.one_minute_from_now = now + ONE_MINUTE_NANOS;
        self.requests_sent = self.requests_sent + 1;
    }
}

/// Whether a request at `now` goes ahead: the window as it stands then has room.
pub open spec fn goes_ahead(l: ApiLimiter, now: i64) -> bool {
    window_at(l, now).1 < RATE_LIMIT
}

/// The limiter after a request at `now`: the window as it stands then, with the request
/// counted if it goes ahead.
pub open spec fn after_request(l: ApiLimiter, now: i64) -> ApiLimiter {
    let (end, sent) = window_at(l, now);
    ApiLimiter {
        one_minute_from_now: end,
        requests_sent: if sent < RATE_LIMIT {
            (sent + 1) as i32
        } else {
            sent
        },
    }
}

/// The limiter after requests at the given times, none of them waiting, and how many went
/// ahead.
pub open spec fn after_requests(l: ApiLimiter, times: Seq<i64>) -> (ApiLimiter, nat)
    decreases times.len(),
{
    if times.len() == 0 {
        (l, 0)
    } else {
        let (before, admitted) = after_requests(l, times.drop_last());
        (
            after_request(before, times.last()),
            admitted + if goes_ahead(before, times.last()) {
                1nat
            } else {
                0nat
            },
        )
    }
}

/// No window lets more than `RATE_LIMIT` requests go ahead: of any requests made before the
/// window ends, at most as many go ahead as the window had room for.
pub proof fn lemma_rate_limit_holds(l: ApiLimiter, times: Seq<i64>)
    requires
        0 <= l.requests_sent <= RATE_LIMIT,
        forall|i: int| 0 <= i < times.len() ==> times[i] <= l.one_minute_from_now,
    ensures
        after_requests(l, times).0.one_minute_from_now == l.one_minute_from_now,
        after_requests(l, times).0.requests_sent == l.requests_sent + after_requests(l, times).1,
        l.requests_sent + after_requests(l, times).1 <= RATE_LIMIT,
    decreases times.len(),
{
    if times.len() > 0 {
        let rest = times.drop_last();
        assert forall|i: int| 0 <= i < rest.len() implies rest[i] <= l.one_minute_from_now by {
            assert(rest[i] == times[i]);
        }
        lemma_rate_limit_holds(l, rest);
        assert(times.last() == times[times.len() - 1]);
    }
}

/// The limiter after one rate-limited request: the request at `now` goes ahead, or, where the
/// window is full, it waits and a new window begins at `resumed_at` with the request counted.
pub open spec fn after_api_request(l: ApiLimiter, now: i64, resumed_at: i64) -> ApiLimiter {
    if goes_ahead(l, now) {
        after_request(l, now)
    } else {
        ApiLimiter {
            one_minute_from_now: (resumed_at + ONE_MINUTE_NANOS) as i64,
            requests_sent: 1,
        }
    }
}

/// Every rate-limited request is counted once and the count stays within the limit; a request
/// within the window with room left only raises the count by one, in the same window.
pub proof fn lemma_api_request_counted(l: ApiLimiter, now: i64, resumed_at: i64)
    requires
        0 <= l.requests_sent <= RATE_LIMIT,
    ensures
        1 <= after_api_request(l, now, resumed_at).requests_sent <= RATE_LIMIT,
        now <= l.one_minute_from_now && l.requests_sent < RATE_LIMIT ==> after_api_request(
            l,
            now,
            resumed_at,
        ).requests_sent == l.requests_sent + 1 && after_api_request(
            l,
            now,
            resumed_at,
        ).one_minute_from_now == l.one_minute_from_now,
{
}

} // verus!
