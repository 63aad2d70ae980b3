//! The throttle's decisions: fixed-window counting of requests.
//!
//! A window opens at the first acquisition after the previous window has run
//! out, and admits up to `rate_limit` acquisitions; any further acquisition in
//! the window is told how long to wait until the window ends. The caller
//! waits without holding the state, then asks again. Times are milliseconds
//! on a monotonic clock.
use vstd::prelude::*;

verus! {

/// What a caller of `acquire` does next.
#[derive(Debug, Clone, Copy, PartialEq, Eq, Structural)]
pub enum ThrottleAction {
    /// Go ahead now; the acquisition has been counted.
    Proceed,
    /// Wait this many milliseconds, then ask again.
    Wait(u64),
}

/// The throttle's state, as values.
pub struct WindowSpec {
    /// Acquisitions admitted per window.
    pub rate_limit: nat,
    /// Length of a window, in milliseconds.
    pub interval: nat,
    /// Acquisitions counted in the current window.
    pub request_count: nat,
    /// When the current window opened; `None` before the first acquisition.
    pub window_start: Option<nat>,
}

/// The window has run out at `now` (or none was ever opened).
pub open spec fn window_over(s: WindowSpec, now: nat) -> bool {
    match s.window_start {
        None => true,
        Some(start) => now >= start + s.interval,
    }
}

/// One acquisition at time `now`: the next state and what the caller does.
pub open spec fn step(s: WindowSpec, now: nat) -> (WindowSpec, ThrottleAction) {
    if window_over(s, now) {
        (WindowSpec { request_count: 1, window_start: Some(now), ..s }, ThrottleAction::Proceed)
    } else if s.request_count < s.rate_limit {
        (WindowSpec { request_count: s.request_count + 1, ..s }, ThrottleAction::Proceed)
    } else {
        let start = s.window_start->Some_0;
        (s, ThrottleAction::Wait((start + s.interval - now) as u64))
    }
}

/// Acquisitions at the times `ts`, one after another: the final state and
/// the action of each.
pub open spec fn run(s: WindowSpec, ts: Seq<nat>) -> (WindowSpec, Seq<ThrottleAction>)
    decreases ts.len(),
{
    if ts.len() == 0 {
        (s, Seq::empty())
    } else {
        let (s1, acts) = run(s, ts.drop_last());
        let (s2, a) = step(s1, ts.last());
        (s2, acts.push(a))
    }
}

/// A throttle that has not admitted anything yet.
pub open spec fn fresh(rate_limit: nat, interval: nat) -> WindowSpec {
    WindowSpec { rate_limit, interval, request_count: 0, window_start: None }
}

/// The times do not decrease, and all fall before `ts[0] + interval`.
pub open spec fn one_window(ts: Seq<nat>, interval: nat) -> bool {
    &&& forall|i: int, j: int| 0 <= i <= j < ts.len() ==> ts[i] <= ts[j]
    &&& forall|i: int| 0 <= i < ts.len() ==> #[trigger] ts[i] < ts[0] + interval
}

/// Counter and window start of one throttle.
#[derive(Debug)]
pub struct ThrottlerState {
    rate_limit: u32,
    interval: u64,
    request_count: u32,
    window_start: Option<u64>,
}

impl View for ThrottlerState {
    type V = WindowSpec;

    closed spec fn view(&self) -> WindowSpec {
        WindowSpec {
            rate_limit: self.rate_limit as nat,
            interval: self.interval as nat,
            request_count: self.request_count as nat,
            window_start: match self.window_start {
                None => None,
                Some(t) => Some(t as nat),
            },
        }
    }
}

impl ThrottlerState {
    /// A throttle admitting `rate_limit` acquisitions per window of
    /// `interval` milliseconds.
    pub fn new(rate_limit: u32, interval: u64) -> (r: ThrottlerState)
        ensures
            r@ == fresh(rate_limit as nat, interval as nat),
    {
        ThrottlerState { rate_limit, interval, request_count: 0, window_start: None }
    }

    /// An acquisition at time `now`, no earlier than any time given before.
    pub fn acquire(&mut self, now: u64) -> (r: ThrottleAction)
        requires
            match old(self)@.window_start {
                None => true,
                Some(start) => start <= now,
            },
        ensures
            (final(self)@, r) == step(old(self)@, now as nat),
    {
        let over = match self.window_start {
            None => true,
            Some(start) => now - start >= self.interval,
        };
        if over {
            self.request_count = 1;
            self.window_start = Some(now);
            ThrottleAction::Proceed
        } else if self.request_count < self.rate_limit {
            self.request_count = self.request_count + 1;
            ThrottleAction::Proceed
        } else {
            let start = match self.window_start {
                Some(start) => start,
                None => now,
            };
            ThrottleAction::Wait(self.interval - (now - start))
        }
    }

    /// The number of acquisitions counted in the current window.
    pub fn request_count(&self) -> (r: u32)
        ensures
            r as nat == self@.request_count,
    {
        self.request_count
    }

    /// When the current window opened, if one did.
    pub fn window_start(&self) -> (r: Option<u64>)
        ensures
            r is None <==> self@.window_start is None,
            r is Some ==> self@.window_start == Some(r->Some_0 as nat),
    {
        self.window_start
    }
}

proof fn lemma_run_within_window(s: WindowSpec, ts: Seq<nat>)
    requires
        ts.len() >= 1,
        s.interval > 0,
        window_over(s, ts[0]),
        one_window(ts, s.interval),
    ensures
        run(s, ts).0.window_start == Some(ts[0]),
        run(s, ts).0.rate_limit == s.rate_limit,
        run(s, ts).0.interval == s.interval,
        run(s, ts).0.request_count == if ts.len() <= s.rate_limit {
            ts.len() as nat
        } else if s.rate_limit == 0 {
            1
        } else {
            s.rate_limit
        },
        run(s, ts).1.len() == ts.len(),
        forall|i: int|
            0 <= i < ts.len() ==> (#[trigger] run(s, ts).1[i] == ThrottleAction::Proceed <==> (i == 0
                || i < s.rate_limit)),
    decreases ts.len(),
{
    let w = s.interval;
    let p = ts.drop_last();
    if ts.len() > 1 {
        assert(one_window(p, w)) by {
            assert forall|i: int| 0 <= i < p.len() implies #[trigger] p[i] < p[0] + w by {
                assert(ts[i] < ts[0] + w);
            }
        }
        lemma_run_within_window(s, p);
        assert(ts.last() == ts[ts.len() - 1]);
        assert(ts[0] <= ts.last());
        assert(ts.last() < ts[0] + w);
        let acts = run(s, ts).1;
        let pacts = run(s, p).1;
        assert forall|i: int| 0 <= i < ts.len() implies (#[trigger] acts[i]
            == ThrottleAction::Proceed <==> (i == 0 || i < s.rate_limit)) by {
            if i < ts.len() - 1 {
                assert(acts[i] == pacts[i]);
            }
        }
    } else {
        assert(run(s, p) == (s, Seq::<ThrottleAction>::empty()));
        assert(ts.last() == ts[0]);
    }
}

/// Starting when the previous window has run out (or on a fresh throttle),
/// acquisitions within one window proceed while they are at most
/// `rate_limit` (the first always does, opening the window), and each one
/// after that is told to wait until that window has run out. The window
/// opened at the first time and counts the acquisitions that proceeded,
/// never more than the quota.
pub proof fn lemma_fixed_window_bound(s: WindowSpec, ts: Seq<nat>)
    requires
        ts.len() >= 1,
        s.interval > 0,
        window_over(s, ts[0]),
        one_window(ts, s.interval),
    ensures
        forall|i: int|
            0 <= i < ts.len() && (i == 0 || i < s.rate_limit) ==> #[trigger] run(s, ts).1[i]
                == ThrottleAction::Proceed,
        forall|i: int|
            0 < i < ts.len() && i >= s.rate_limit ==> #[trigger] run(s, ts).1[i]
                != ThrottleAction::Proceed,
        ts.len() > s.rate_limit && ts.len() > 1 ==> run(s, ts).1.last() == ThrottleAction::Wait(
            (ts[0] + s.interval - ts.last()) as u64,
        ),
        run(s, ts).0.window_start == Some(ts[0]),
        run(s, ts).0.request_count == if ts.len() <= s.rate_limit {
            ts.len() as nat
        } else if s.rate_limit == 0 {
            1
        } else {
            s.rate_limit
        },
{
    lemma_run_within_window(s, ts);
    if ts.len() > s.rate_limit && ts.len() > 1 {
        let p = ts.drop_last();
        lemma_run_within_window(s, p);
        assert(ts.last() == ts[ts.len() - 1]);
        assert(ts.last() < ts[0] + s.interval);
    }
}

/// Once a window has run out, the next acquisition proceeds and opens a new
/// window in which it is the only one counted.
pub proof fn lemma_window_resets(s: WindowSpec, now: nat)
    requires
        s.window_start is Some,
        now >= s.window_start->Some_0 + s.interval,
    ensures
        step(s, now).1 == ThrottleAction::Proceed,
        step(s, now).0.request_count == 1,
        step(s, now).0.window_start == Some(now),
{
}

/// No window ever counts more than its quota (or one, for a quota of zero).
pub proof fn lemma_count_bounded(s: WindowSpec, now: nat)
    requires
        s.request_count <= if s.rate_limit == 0 { 1 } else { s.rate_limit },
    ensures
        step(s, now).0.request_count <= if s.rate_limit == 0 { 1 } else { s.rate_limit },
        step(s, now).0.rate_limit == s.rate_limit,
{
}

} // verus!
