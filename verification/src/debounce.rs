//! Per-subscription rate limiting.
//!
//! A [`DebounceGate`] is a leaky-bucket-of-size-one rate limiter: with no
//! window configured every observation fires; with a window `w`, an
//! observation fires exactly when no prior observation fired or at least `w`
//! clock ticks have elapsed since the last one that did. Suppressed
//! observations are dropped, never buffered. Times are ticks of a monotonic
//! clock; the caller serializes concurrent deliveries around this state.

use vstd::prelude::*;

verus! {

/// Ticks elapsed from `last` to `now` on a clock that never runs backwards;
/// a `now` before `last` counts as no elapsed time.
pub open spec fn spec_elapsed(last: u64, now: u64) -> int {
    if now >= last {
        now - last
    } else {
        0
    }
}

/// Whether an observation at `now` fires, given the configured window and
/// the time of the last accepted observation.
pub open spec fn spec_fires(window: Option<u64>, last: Option<u64>, now: u64) -> bool {
    match window {
        None => true,
        Some(w) => match last {
            None => true,
            Some(l) => spec_elapsed(l, now) >= w,
        },
    }
}

/// The state after one observation at `now`: the firing decision and the new
/// last-accepted timestamp.
pub open spec fn spec_observe(window: Option<u64>, last: Option<u64>, now: u64) -> (
    bool,
    Option<u64>,
) {
    if spec_fires(window, last, now) {
        (true, Some(now))
    } else {
        (false, last)
    }
}

/// Debounce state for one subscription: the configured window and the time
/// of the last observation that fired.
pub struct DebounceGate {
    window: Option<u64>,
    last_call: Option<u64>,
}

impl DebounceGate {
    /// The configured window, in ticks; `None` disables debouncing.
    pub closed spec fn spec_window(&self) -> Option<u64> {
        self.window
    }

    /// The time of the last accepted observation, if any fired yet.
    pub closed spec fn spec_last_call(&self) -> Option<u64> {
        self.last_call
    }

    /// A fresh gate: nothing has fired yet.
    pub fn new(window: Option<u64>) -> (g: DebounceGate)
        ensures
            g.spec_window() == window,
            g.spec_last_call() is None,
    {
        DebounceGate { window, last_call: None }
    }

    /// Decide whether an observation at `now` fires, and if it does, record
    /// `now` as the last accepted time before returning.
    pub fn observe(&mut self, now: u64) -> (fire: bool)
        ensures
            (fire, final(self).spec_last_call()) == spec_observe(
                old(self).spec_window(),
                old(self).spec_last_call(),
                now,
            ),
            final(self).spec_window() == old(self).spec_window(),
            old(self).spec_window() is None ==> fire,
            old(self).spec_last_call() is None ==> fire,
            // under a monotonic clock the stored timestamp never decreases
            forall|l: u64, l2: u64|
                old(self).spec_last_call() == Some(l) && now >= l && final(self).spec_last_call()
                    == Some(l2) ==> l2 >= l,
    {
        match self.window {
            None => {
                self.last_call = Some(now);
                true
            },
            Some(w) => {
                let fire = match self.last_call {
                    None => true,
                    Some(l) => {
                        let elapsed: u64 = if now >= l {
                            now - l
                        } else {
                            0
                        };
                        elapsed >= w
                    },
                };
                if fire {
                    self.last_call = Some(now);
                }
                fire
            },
        }
    }
}

/// With a window `w >= 1` and a fresh gate, of the four observations at
/// `t0`, `t0 + w/2`, `t0 + w` and `t0 + 2w`, exactly the first, the third
/// and the fourth fire: the one at `t0 + w/2` is suppressed.
pub proof fn lemma_debounce_pattern(w: u64, t0: u64)
    requires
        1 <= w,
        t0 + 2 * w <= u64::MAX,
    ensures
        ({
            let r1 = spec_observe(Some(w), None, t0);
            let r2 = spec_observe(Some(w), r1.1, (t0 + w / 2) as u64);
            let r3 = spec_observe(Some(w), r2.1, (t0 + w) as u64);
            let r4 = spec_observe(Some(w), r3.1, (t0 + 2 * w) as u64);
            r1.0 && !r2.0 && r3.0 && r4.0
        }),
{
    assert(w / 2 < w);
}

} // verus!
