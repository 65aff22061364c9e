use vstd::prelude::*;

verus! {

/// The producer's tick interval, in milliseconds.
pub const TICK_RATE_MS: u64 = 200;

/// Whether a tick is due at `now` when the last one went out at `last`.
pub open spec fn tick_is_due(rate: int, last: int, now: int) -> bool {
    now - last >= rate
}

/// How long the producer may wait for a key at `now` before a tick is due.
pub open spec fn timeout_at(rate: int, last: int, now: int) -> int {
    if tick_is_due(rate, last, now) {
        0
    } else {
        rate - (now - last)
    }
}

/// Time of the last tick after the producer wakes at `now`.
pub open spec fn last_after(rate: int, last: int, now: int) -> int {
    if tick_is_due(rate, last, now) {
        now
    } else {
        last
    }
}

/// Times at which ticks go out when the producer, whose last tick was at
/// `last`, wakes at each time of `wakes` in turn.
pub open spec fn tick_times(rate: int, last: int, wakes: Seq<int>) -> Seq<int>
    decreases wakes.len(),
{
    if wakes.len() == 0 {
        seq![]
    } else if tick_is_due(rate, last, wakes[0]) {
        seq![wakes[0]] + tick_times(rate, wakes[0], wakes.drop_first())
    } else {
        tick_times(rate, last, wakes.drop_first())
    }
}

/// Each wake comes no earlier than the one before (at `prev`) and no more than
/// `jitter` after the wait that the producer asked for then has run out.
pub open spec fn paced(rate: int, jitter: int, last: int, prev: int, wakes: Seq<int>) -> bool
    decreases wakes.len(),
{
    wakes.len() == 0 || (prev <= wakes[0] && wakes[0] <= prev + timeout_at(rate, last, prev)
        + jitter && paced(
        rate,
        jitter,
        last_after(rate, last, wakes[0]),
        wakes[0],
        wakes.drop_first(),
    ))
}

/// The producer's clock: the interval and the time of the last tick, both in
/// milliseconds on a monotonic clock.
#[derive(Clone, Copy, Debug, PartialEq, Eq, Structural)]
pub struct TickClock {
    pub tick_rate: u64,
    pub last_tick: u64,
}

impl TickClock {
    /// A clock whose first tick is due one interval after `now`.
    pub fn new(tick_rate: u64, now: u64) -> (r: TickClock)
        ensures
            r.tick_rate == tick_rate,
            r.last_tick == now,
    {
        TickClock { tick_rate, last_tick: now }
    }

    /// How long to wait for a key at `now`: the time left until the next
    /// tick, or zero when it is already due.
    pub fn poll_timeout(&self, now: u64) -> (r: u64)
        requires
            self.last_tick <= now,
        ensures
            r == timeout_at(self.tick_rate as int, self.last_tick as int, now as int),
    {
        let elapsed = now - self.last_tick;
        if elapsed >= self.tick_rate {
            0
        } else {
            self.tick_rate - elapsed
        }
    }

    /// Called when the producer wakes at `now`: says whether a tick goes out,
    /// and if so restarts the interval from `now`.
    pub fn on_wake(&mut self, now: u64) -> (tick: bool)
        requires
            old(self).last_tick <= now,
        ensures
            tick == tick_is_due(old(self).tick_rate as int, old(self).last_tick as int, now as int),
            final(self).tick_rate == old(self).tick_rate,
            final(self).last_tick == last_after(
                old(self).tick_rate as int,
                old(self).last_tick as int,
                now as int,
            ),
    {
        if now - self.last_tick >= self.tick_rate {
            self.last_tick = now;
            true
        } else {
            false
        }
    }
}

/// Ticks are never further apart than the interval plus the scheduling jitter,
/// whatever keys arrive in between: counting from the clock's start at `last`,
/// any two consecutive ticks are at most `rate + jitter` apart, provided that
/// each wait for a key ends at most `jitter` after its timeout.
pub proof fn lemma_tick_spacing(rate: int, jitter: int, last: int, wakes: Seq<int>)
    requires
        rate > 0,
        jitter >= 0,
        paced(rate, jitter, last, last, wakes),
    ensures
        ({
            let ts = seq![last] + tick_times(rate, last, wakes);
            forall|i: int| 0 <= i < ts.len() - 1 ==> #[trigger] ts[i + 1] - ts[i] <= rate + jitter
        }),
{
    lemma_tick_spacing_from(rate, jitter, last, last, wakes);
}

proof fn lemma_tick_spacing_from(rate: int, jitter: int, last: int, prev: int, wakes: Seq<int>)
    requires
        rate > 0,
        jitter >= 0,
        last <= prev < last + rate,
        paced(rate, jitter, last, prev, wakes),
    ensures
        ({
            let ts = seq![last] + tick_times(rate, last, wakes);
            forall|i: int| 0 <= i < ts.len() - 1 ==> #[trigger] ts[i + 1] - ts[i] <= rate + jitter
        }),
    decreases wakes.len(),
{
    if wakes.len() > 0 {
        let w = wakes[0];
        let rest = wakes.drop_first();
        let ts = seq![last] + tick_times(rate, last, wakes);
        if tick_is_due(rate, last, w) {
            lemma_tick_spacing_from(rate, jitter, w, w, rest);
            let tail = seq![w] + tick_times(rate, w, rest);
            assert(tick_times(rate, last, wakes) == tail);
            assert(ts =~= seq![last] + tail);
            assert(ts[1] == w);
            assert forall|i: int| 0 <= i < ts.len() - 1 implies #[trigger] ts[i + 1] - ts[i] <= rate
                + jitter by {
                if i > 0 {
                    assert(ts[i] == tail[i - 1]);
                    assert(ts[i + 1] == tail[(i - 1) + 1]);
                }
            }
        } else {
            lemma_tick_spacing_from(rate, jitter, last, w, rest);
            assert(tick_times(rate, last, wakes) == tick_times(rate, last, rest));
        }
    }
}

} // verus!
