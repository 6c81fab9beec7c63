//! Debounce core for a single watched file: raw modification notifications
//! are collapsed so that a change is surfaced at most once per quiet window.

use vstd::prelude::*;

verus! {

/// Quiet window, in milliseconds: a raw notification is surfaced only when
/// more than this much time has passed since the last surfaced change.
pub const DEBOUNCE_WINDOW_MS: u64 = 100;

/// What one poll does: with a raw notification in hand at instant `now`, the
/// change is surfaced exactly when the quiet window has fully elapsed since
/// the last surfaced change, and only a surfaced change resets that clock.
/// A suppressed notification is still consumed.
pub open spec fn spec_debounce(last_change: u64, event_pending: bool, now: u64) -> (u64, bool) {
    if event_pending && now - last_change > DEBOUNCE_WINDOW_MS {
        (now, true)
    } else {
        (last_change, false)
    }
}

/// Debounce state for one watched file. The caller owns the raw
/// notification source and hands in whether a notification arrived,
/// together with a monotone millisecond clock.
pub struct FileWatcher {
    last_change: u64,
}

impl FileWatcher {
    /// A fresh watcher; the quiet window starts at the given instant.
    pub fn new(now_ms: u64) -> (r: Self)
        ensures
            r.last_change_ms() == now_ms,
    {
        FileWatcher { last_change: now_ms }
    }

    /// The instant of the last surfaced change.
    pub closed spec fn last_change_ms(&self) -> u64 {
        self.last_change
    }

    /// Poll for a change: true exactly when a raw notification arrived and
    /// the quiet window has elapsed since the last surfaced change.
    pub fn check_for_changes(&mut self, event_pending: bool, now_ms: u64) -> (r: bool)
        requires
            old(self).last_change_ms() <= now_ms,
        ensures
            (final(self).last_change_ms(), r) == spec_debounce(
                old(self).last_change_ms(),
                event_pending,
                now_ms,
            ),
    {
        if event_pending && now_ms - self.last_change > DEBOUNCE_WINDOW_MS {
            self.last_change = now_ms;
            return true;
        }
        false
    }
}

/// Debounce law: after a surfaced change at instant `t`, a second raw
/// notification `d` milliseconds later is suppressed exactly when `d` is
/// within the quiet window. So two notifications 10 ms apart yield one
/// surfaced change, and two 150 ms apart yield two.
pub proof fn lemma_debounce_pair(last: u64, t: u64, d: u64)
    requires
        t - last > DEBOUNCE_WINDOW_MS,
        t + d <= u64::MAX,
    ensures
        ({
            let (l1, r1) = spec_debounce(last, true, t);
            let (l2, r2) = spec_debounce(l1, true, (t + d) as u64);
            r1 == true && r2 == (d > DEBOUNCE_WINDOW_MS)
        }),
{
}

} // verus!
