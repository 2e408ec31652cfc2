//! Rate limiting: a least spacing between the requests of one client.

use vstd::prelude::*;

verus! {

/// The turn of one caller: when it asked, and when it went on.
pub struct Turn {
    pub asked: u64,
    pub released: u64,
}

/// A limiter as a plain value. Times are in milliseconds on a clock of the
/// caller's choice.
pub struct LimiterView {
    /// The least time between two releases.
    pub min_interval: u64,
    /// When the caller before was released; `None` before the first call.
    pub last_request_at: Option<u64>,
}

impl LimiterView {
    /// When a caller that asks at `now` is released: at once if it is the
    /// first, and else `min_interval` after the caller before, or at once if
    /// that has passed. A release that would lie behind the end of the clock
    /// is at its end.
    pub open spec fn release_time(self, now: u64) -> u64 {
        match self.last_request_at {
            None => now,
            Some(last) => {
                let due: u64 = if last + self.min_interval <= u64::MAX {
                    (last + self.min_interval) as u64
                } else {
                    u64::MAX
                };
                if now >= due {
                    now
                } else {
                    due
                }
            },
        }
    }

    /// The limiter after a caller asked at `now`.
    pub open spec fn after_turn(self, now: u64) -> LimiterView {
        LimiterView { last_request_at: Some(self.release_time(now)), ..self }
    }

    /// The limiter after it was told that a caller went on at `at`: `at` is
    /// the last release, unless a later one is booked.
    pub open spec fn after_release(self, at: u64) -> LimiterView {
        match self.last_request_at {
            Some(last) if last >= at => self,
            _ => LimiterView { last_request_at: Some(at), ..self },
        }
    }

    /// Whether each caller of `turns`, one after the other, went on no
    /// earlier than it was told to, and said so before the next one asked.
    pub open spec fn punctual(self, turns: Seq<Turn>) -> bool
        decreases turns.len(),
    {
        turns.len() == 0 || {
            let first = turns.first();
            first.released >= self.release_time(first.asked) && self.after_turn(
                first.asked,
            ).after_release(first.released).punctual(turns.drop_first())
        }
    }

    /// When the callers that ask at the times of `asked`, one after the
    /// other, are released.
    pub open spec fn release_times(self, asked: Seq<u64>) -> Seq<u64>
        decreases asked.len(),
    {
        if asked.len() == 0 {
            Seq::empty()
        } else {
            seq![self.release_time(asked.first())] + self.after_turn(
                asked.first(),
            ).release_times(asked.drop_first())
        }
    }
}

/// Whenever callers ask and however often, no caller is released before it
/// asked, and two callers in a row are released at least `min_interval`
/// apart, as long as the clock can hold the later release.
pub proof fn lemma_releases_are_spaced(limiter: LimiterView, asked: Seq<u64>, i: int)
    requires
        0 <= i < asked.len(),
    ensures
        limiter.release_times(asked).len() == asked.len(),
        limiter.release_times(asked)[i] >= asked[i],
        i + 1 < asked.len() && limiter.release_times(asked)[i] + limiter.min_interval <= u64::MAX
            ==> limiter.release_times(asked)[i + 1] - limiter.release_times(asked)[i]
            >= limiter.min_interval,
    decreases asked.len(),
{
    let next = limiter.after_turn(asked.first());
    let rest = asked.drop_first();
    lemma_release_times_len(limiter, asked);
    lemma_release_times_len(next, rest);
    if i > 0 {
        lemma_releases_are_spaced(next, rest, i - 1);
    } else if i + 1 < asked.len() {
        // The second release is the first release of the limiter that the
        // first caller left behind.
        assert(limiter.release_times(asked)[1] == next.release_time(rest.first()));
    }
}

/// Callers that take their turns one after the other, each waiting as long as
/// it is told to or longer, go on at least `min_interval` apart, as long as
/// the clock can hold the later release.
pub proof fn lemma_measured_releases_are_spaced(limiter: LimiterView, turns: Seq<Turn>, i: int)
    requires
        limiter.punctual(turns),
        0 <= i,
        i + 1 < turns.len(),
        turns[i].released + limiter.min_interval <= u64::MAX,
    ensures
        turns[i + 1].released - turns[i].released >= limiter.min_interval,
    decreases turns.len(),
{
    let first = turns.first();
    let next = limiter.after_turn(first.asked).after_release(first.released);
    let rest = turns.drop_first();
    assert(next.punctual(rest));
    if i > 0 {
        lemma_measured_releases_are_spaced(next, rest, i - 1);
    } else {
        assert(next.last_request_at == Some(first.released));
        assert(rest.first().released >= next.release_time(rest.first().asked));
    }
}

/// One caller, one release.
proof fn lemma_release_times_len(limiter: LimiterView, asked: Seq<u64>)
    ensures
        limiter.release_times(asked).len() == asked.len(),
    decreases asked.len(),
{
    if asked.len() > 0 {
        lemma_release_times_len(limiter.after_turn(asked.first()), asked.drop_first());
    }
}

/// The first caller of a limiter is released at once.
pub proof fn lemma_first_turn_never_waits(min_interval: u64, now: u64)
    ensures
        (LimiterView { min_interval, last_request_at: None }).release_time(now) == now,
{
}

/// Spaces the requests of one client at least `min_interval` milliseconds
/// apart.
///
/// The limiter does not sleep. It tells each caller how long to wait and
/// books the caller's release at once, so that the decision and the update of
/// the state are one step. A caller that goes on later than it was told to
/// says so, and the callers after it are spaced from when it went on.
pub struct RateLimiter {
    min_interval: u64,
    last_request_at: Option<u64>,
}

impl View for RateLimiter {
    type V = LimiterView;

    closed spec fn view(&self) -> LimiterView {
        LimiterView { min_interval: self.min_interval, last_request_at: self.last_request_at }
    }
}

impl RateLimiter {
    /// A limiter that has released nobody yet.
    pub fn new(min_interval: u64) -> (limiter: Self)
        ensures
            limiter@ == (LimiterView { min_interval, last_request_at: None }),
    {
        RateLimiter { min_interval, last_request_at: None }
    }

    /// The least time between two releases, in milliseconds.
    pub fn min_interval(&self) -> (interval: u64)
        ensures
            interval == self@.min_interval,
    {
        self.min_interval
    }

    /// When the caller before was released.
    pub fn last_request_at(&self) -> (last: Option<u64>)
        ensures
            last == self@.last_request_at,
    {
        self.last_request_at
    }

    /// Books the turn of a caller that asks at `now`, and returns how long
    /// the caller has to wait before it goes on: the time from `now` to its
    /// release.
    pub fn wait_turn(&mut self, now: u64) -> (delay: u64)
        ensures
            delay == old(self)@.release_time(now) - now,
            final(self)@ == old(self)@.after_turn(now),
    {
        let release: u64 = match self.last_request_at {
            None => now,
            Some(last) => {
                let due: u64 = last.saturating_add(self.min_interval);
                if now >= due {
                    now
                } else {
                    due
                }
            },
        };
        self.last_request_at = Some(release);
        release - now
    }

    /// Takes note that the caller whose turn was booked last went on at `at`,
    /// which may be later than it was told to. The callers after it are
    /// spaced from then on.
    pub fn confirm_release(&mut self, at: u64)
        ensures
            final(self)@ == old(self)@.after_release(at),
    {
        match self.last_request_at {
            Some(last) if last >= at => {},
            _ => {
                self.last_request_at = Some(at);
            },
        }
    }
}

} // verus!
