//! A ceiling on requests per minute, counted in fixed windows of sixty
//! seconds. Time is a number of milliseconds read from a clock that never
//! runs backwards; reading the clock and sleeping are the caller's part.

use vstd::prelude::*;
use crate::config::ConfigError;

verus! {

/// Length of an accounting window, in milliseconds.
pub const WINDOW_MILLIS: u64 = 60_000;

/// The answer to a request for a send permit.
#[derive(Debug, Clone, Copy, PartialEq, Eq, Structural)]
pub enum Permit {
    /// Send now; the request is counted.
    Granted,
    /// The window is full. Sleep for `millis`, then ask again.
    WaitFor { millis: u64 },
}

/// The state of a limiter as plain numbers.
pub struct LimiterModel {
    /// Most requests admitted per window.
    pub requests_per_minute: u32,
    /// When the current window began.
    pub window_start: u64,
    /// Requests admitted in the current window.
    pub requests_made: u32,
}

impl LimiterModel {
    /// A window never holds more than the ceiling, and the ceiling admits
    /// something.
    pub open spec fn wf(self) -> bool {
        &&& self.requests_per_minute >= 1
        &&& self.requests_made <= self.requests_per_minute
    }

    /// Time gone by since the window began; nothing if `now` lies before it.
    pub open spec fn elapsed(self, now: u64) -> int {
        if now >= self.window_start {
            now - self.window_start
        } else {
            0
        }
    }

    /// The answer to a request made at `now`.
    pub open spec fn permit_at(self, now: u64) -> Permit {
        if self.elapsed(now) >= WINDOW_MILLIS || self.requests_made < self.requests_per_minute {
            Permit::Granted
        } else {
            Permit::WaitFor { millis: (WINDOW_MILLIS - self.elapsed(now)) as u64 }
        }
    }

    /// The state after a request made at `now`: a window that is over gives
    /// way to a new one that begins at `now` and holds this request; a window
    /// with room counts the request; a full window stays as it is.
    pub open spec fn after(self, now: u64) -> LimiterModel {
        if self.elapsed(now) >= WINDOW_MILLIS {
            LimiterModel { window_start: now, requests_made: 1, ..self }
        } else if self.requests_made < self.requests_per_minute {
            LimiterModel { requests_made: (self.requests_made + 1) as u32, ..self }
        } else {
            self
        }
    }
}

/// The limiter shared by all workers of a run. Whoever holds it exclusively
/// may ask for a permit; that is what serialises concurrent askers.
#[derive(Debug)]
pub struct RateLimiter {
    requests_per_minute: u32,
    window_start: u64,
    requests_made: u32,
}

impl View for RateLimiter {
    type V = LimiterModel;

    closed spec fn view(&self) -> LimiterModel {
        LimiterModel {
            requests_per_minute: self.requests_per_minute,
            window_start: self.window_start,
            requests_made: self.requests_made,
        }
    }
}

impl RateLimiter {
    /// A limiter for `requests_per_minute`, whose first window begins at
    /// `now`. A ceiling of zero is refused.
    pub fn new(requests_per_minute: u32, now: u64) -> (made: Result<RateLimiter, ConfigError>)
        ensures
            requests_per_minute == 0 ==> made == Err::<RateLimiter, ConfigError>(
                ConfigError::ZeroRequestsPerMinute,
            ),
            requests_per_minute > 0 ==> made is Ok && made.unwrap()@ == (LimiterModel {
                requests_per_minute,
                window_start: now,
                requests_made: 0,
            }),
    {
        if requests_per_minute == 0 {
            Err(ConfigError::ZeroRequestsPerMinute)
        } else {
            Ok(RateLimiter { requests_per_minute, window_start: now, requests_made: 0 })
        }
    }

    /// Asks for a send permit at time `now`. Either the permit is granted and
    /// counted, or the caller is told how long the current window still
    /// lasts; after sleeping that long it asks again.
    pub fn wait(&mut self, now: u64) -> (permit: Permit)
        ensures
            old(self)@.wf() ==> final(self)@.wf(),
            permit == old(self)@.permit_at(now),
            final(self)@ == old(self)@.after(now),
    {
        let elapsed: u64 = if now >= self.window_start {
            now - self.window_start
        } else {
            0
        };
        if elapsed >= WINDOW_MILLIS {
            self.window_start = now;
            self.requests_made = 1;
            Permit::Granted
        } else if self.requests_made < self.requests_per_minute {
            self.requests_made = self.requests_made + 1;
            Permit::Granted
        } else {
            Permit::WaitFor { millis: WINDOW_MILLIS - elapsed }
        }
    }

    /// The ceiling this limiter enforces.
    pub fn requests_per_minute(&self) -> (n: u32)
        ensures
            n == self@.requests_per_minute,
    {
        self.requests_per_minute
    }

    /// Requests admitted in the current window.
    pub fn requests_made(&self) -> (n: u32)
        ensures
            n == self@.requests_made,
    {
        self.requests_made
    }

    /// When the current window began.
    pub fn window_start(&self) -> (t: u64)
        ensures
            t == self@.window_start,
    {
        self.window_start
    }
}

/// A granted permit: when it was granted, and the window it was counted in.
pub struct Grant {
    pub at: u64,
    pub window: u64,
}

/// The answers a limiter in state `m` gives to requests made at `times`, one
/// after the other.
pub open spec fn permits(m: LimiterModel, times: Seq<u64>) -> Seq<Permit>
    decreases times.len(),
{
    if times.len() == 0 {
        seq![]
    } else {
        seq![m.permit_at(times[0])] + permits(m.after(times[0]), times.drop_first())
    }
}

/// The permits a limiter in state `m` grants to requests made at `times`.
pub open spec fn grants(m: LimiterModel, times: Seq<u64>) -> Seq<Grant>
    decreases times.len(),
{
    if times.len() == 0 {
        seq![]
    } else {
        let rest = grants(m.after(times[0]), times.drop_first());
        if m.permit_at(times[0]) is Granted {
            seq![Grant { at: times[0], window: m.after(times[0]).window_start }] + rest
        } else {
            rest
        }
    }
}

/// Number of permits of `log` that were counted in the window that began at
/// `window`.
pub open spec fn count_in_window(log: Seq<Grant>, window: u64) -> nat
    decreases log.len(),
{
    if log.len() == 0 {
        0
    } else {
        count_in_window(log.drop_first(), window) + if log[0].window == window {
            1nat
        } else {
            0nat
        }
    }
}

/// Whether `times` could have been read, in this order, from a clock that
/// never runs backwards and showed `start` before.
pub open spec fn clock_readings(start: u64, times: Seq<u64>) -> bool {
    &&& forall|i: int| 0 <= i < times.len() ==> start <= #[trigger] times[i]
    &&& forall|i: int, j: int| 0 <= i <= j < times.len() ==> times[i] <= times[j]
}

proof fn lemma_clock_readings_tail(start: u64, times: Seq<u64>)
    requires
        clock_readings(start, times),
        times.len() > 0,
    ensures
        clock_readings(times[0], times.drop_first()),
        clock_readings(start, times.drop_first()),
{
    let tail = times.drop_first();
    assert forall|i: int| 0 <= i < tail.len() implies times[0] <= #[trigger] tail[i] && start
        <= tail[i] by {
        assert(tail[i] == times[i + 1]);
    }
    assert forall|i: int, j: int| 0 <= i <= j < tail.len() implies tail[i] <= tail[j] by {
        assert(tail[i] == times[i + 1]);
        assert(tail[j] == times[j + 1]);
    }
}

/// No accounting window ever admits more requests than the ceiling: of the
/// permits granted from a well-formed state on, at most as many are counted
/// in any one window as the ceiling allows, the requests the current window
/// already holds included. Windows that are over admit nothing more.
pub proof fn lemma_window_never_overfull(m: LimiterModel, times: Seq<u64>, window: u64)
    requires
        m.wf(),
        clock_readings(m.window_start, times),
    ensures
        count_in_window(grants(m, times), window) <= m.requests_per_minute,
        window == m.window_start ==> count_in_window(grants(m, times), window) + m.requests_made
            <= m.requests_per_minute,
        window < m.window_start ==> count_in_window(grants(m, times), window) == 0,
    decreases times.len(),
{
    if times.len() > 0 {
        let next = m.after(times[0]);
        let rest = grants(next, times.drop_first());
        lemma_clock_readings_tail(m.window_start, times);
        lemma_window_never_overfull(next, times.drop_first(), window);
        if m.permit_at(times[0]) is Granted {
            let log = grants(m, times);
            assert(log.drop_first() =~= rest);
        }
    }
}

/// Every permit is granted inside the window it is counted in: not before
/// the window began and less than sixty seconds after.
pub proof fn lemma_grants_lie_in_their_windows(m: LimiterModel, times: Seq<u64>, k: int)
    requires
        m.wf(),
        clock_readings(m.window_start, times),
        0 <= k < grants(m, times).len(),
    ensures
        grants(m, times)[k].window <= grants(m, times)[k].at,
        grants(m, times)[k].at < grants(m, times)[k].window + WINDOW_MILLIS,
    decreases times.len(),
{
    if times.len() > 0 {
        let next = m.after(times[0]);
        lemma_clock_readings_tail(m.window_start, times);
        if m.permit_at(times[0]) is Granted {
            if k > 0 {
                lemma_grants_lie_in_their_windows(next, times.drop_first(), k - 1);
            }
        } else {
            lemma_grants_lie_in_their_windows(next, times.drop_first(), k);
        }
    }
}

/// With room for `r` more requests in the current window, `r + 1` requests
/// made before the window is over are answered like this: the first `r` get
/// their permit, the last is told to wait for exactly what is left of the
/// window. For a limiter fresh from `new`, `r` is the ceiling itself.
pub proof fn lemma_burst_suspends_after_ceiling(m: LimiterModel, times: Seq<u64>)
    requires
        m.wf(),
        times.len() == m.requests_per_minute - m.requests_made + 1,
        forall|i: int| 0 <= i < times.len() ==> m.elapsed(#[trigger] times[i]) < WINDOW_MILLIS,
    ensures
        permits(m, times).len() == times.len(),
        forall|i: int| 0 <= i < times.len() - 1 ==> #[trigger] permits(m, times)[i] == Permit::Granted,
        permits(m, times)[times.len() - 1] == (Permit::WaitFor {
            millis: (WINDOW_MILLIS - m.elapsed(times[times.len() - 1])) as u64,
        }),
        WINDOW_MILLIS - m.elapsed(times[times.len() - 1]) > 0,
    decreases times.len(),
{
    let tail = times.drop_first();
    assert(m.elapsed(times[0]) < WINDOW_MILLIS);
    if m.requests_made < m.requests_per_minute {
        let next = m.after(times[0]);
        assert forall|i: int| 0 <= i < tail.len() implies next.elapsed(#[trigger] tail[i])
            < WINDOW_MILLIS by {
            assert(tail[i] == times[i + 1]);
            assert(m.elapsed(times[i + 1]) < WINDOW_MILLIS);
        }
        lemma_burst_suspends_after_ceiling(next, tail);
        assert(tail[tail.len() - 1] == times[times.len() - 1]);
        assert forall|i: int| 0 <= i < times.len() - 1 implies #[trigger] permits(m, times)[i]
            == Permit::Granted by {
            if i > 0 {
                assert(permits(m, times)[i] == permits(next, tail)[i - 1]);
            }
        }
    } else {
        assert(tail.len() == 0);
        assert(permits(m.after(times[0]), tail).len() == 0);
    }
}

/// A caller that was told to wait, slept at least that long and asks again
/// gets its permit: the window it waited out gives way to a new one, which
/// begins with that request.
pub proof fn lemma_permit_follows_the_wait(m: LimiterModel, now: u64, millis: u64, later: u64)
    requires
        m.window_start <= now,
        m.permit_at(now) == (Permit::WaitFor { millis }),
        now + millis <= later,
    ensures
        m.after(now) == m,
        now + millis == m.window_start + WINDOW_MILLIS,
        m.after(now).permit_at(later) == Permit::Granted,
        m.after(now).after(later) == (LimiterModel { window_start: later, requests_made: 1, ..m }),
{
}

} // verus!
