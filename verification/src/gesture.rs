//! Debouncing of a repeated global keyboard shortcut into a single
//! "confirmed double tap" event.
//!
//! The state machine works on a monotonic clock expressed as milliseconds;
//! the caller samples that clock and hands the current reading to
//! [`DoubleTapState::handle_tap`].

use vstd::prelude::*;

verus! {

/// Maximum time between two taps for them to still count as one double tap.
pub const DOUBLE_TAP_TIMEOUT_MS: u64 = 300;

/// A second tap that arrives within this interval of the first is treated as
/// hardware key-repeat noise and ignored.
pub const MIN_TAP_INTERVAL_MS: u64 = 50;

/// The debouncer's whole state: the monotonic reading of the pending first
/// tap, if any, and whether a second tap is currently awaited.
pub struct DoubleTapState {
    pub first_tap_time: Option<u64>,
    pub is_waiting_for_second: bool,
}

impl DoubleTapState {
    /// True when a first tap has been recorded and a second one is awaited.
    pub open spec fn awaiting(self) -> bool {
        self.is_waiting_for_second && self.first_tap_time is Some
    }

    /// Time since the recorded first tap. A reading older than the recorded
    /// tap (impossible on a monotonic clock) counts as no time at all.
    pub open spec fn spec_elapsed(self, now_ms: u64) -> int
        recommends
            self.first_tap_time is Some,
    {
        if now_ms >= self.first_tap_time->0 {
            now_ms - self.first_tap_time->0
        } else {
            0
        }
    }

    /// The state after a raw tap at `now_ms`, and whether that tap confirms
    /// a double tap.
    pub open spec fn spec_tap(self, now_ms: u64) -> (DoubleTapState, bool) {
        if self.awaiting() {
            let elapsed = self.spec_elapsed(now_ms);
            if elapsed <= MIN_TAP_INTERVAL_MS {
                (self, false)
            } else if elapsed <= DOUBLE_TAP_TIMEOUT_MS {
                (DoubleTapState { first_tap_time: None, is_waiting_for_second: false }, true)
            } else {
                (DoubleTapState { first_tap_time: Some(now_ms), is_waiting_for_second: true }, false)
            }
        } else {
            (DoubleTapState { first_tap_time: Some(now_ms), is_waiting_for_second: true }, false)
        }
    }

    pub fn new() -> (s: Self)
        ensures
            s.first_tap_time is None,
            !s.is_waiting_for_second,
    {
        Self { first_tap_time: None, is_waiting_for_second: false }
    }

    pub fn reset(&mut self)
        ensures
            final(self).first_tap_time is None,
            !final(self).is_waiting_for_second,
    {
        self.first_tap_time = None;
        self.is_waiting_for_second = false;
    }

    /// Feed one raw tap, observed at monotonic reading `now_ms`, through the
    /// state machine. Returns true exactly when the tap confirms a double
    /// tap; the state then resets so that a third tap starts over.
    pub fn handle_tap(&mut self, now_ms: u64) -> (confirmed: bool)
        ensures
            (*final(self), confirmed) == old(self).spec_tap(now_ms),
    {
        if self.is_waiting_for_second {
            if let Some(first) = self.first_tap_time {
                let elapsed = if now_ms >= first {
                    now_ms - first
                } else {
                    0
                };
                if elapsed <= MIN_TAP_INTERVAL_MS {
                    // Key-repeat noise: keep the original first tap.
                    return false;
                } else if elapsed <= DOUBLE_TAP_TIMEOUT_MS {
                    self.reset();
                    return true;
                } else {
                    // Too late for a double tap: this tap opens a new window.
                    self.first_tap_time = Some(now_ms);
                    self.is_waiting_for_second = true;
                    return false;
                }
            }
        }
        // First tap of a potential pair.
        self.first_tap_time = Some(now_ms);
        self.is_waiting_for_second = true;
        false
    }
}

/// A tap can confirm a double tap only out of the awaiting state, and a
/// confirming tap always resets the machine: one pair of taps yields at most
/// one confirmation, because the tap after a confirmation starts from the
/// reset state again.
pub proof fn lemma_confirmation_resets(s: DoubleTapState, now_ms: u64)
    ensures
        s.spec_tap(now_ms).1 ==> s.awaiting(),
        s.spec_tap(now_ms).1 ==> !s.spec_tap(now_ms).0.awaiting(),
        !s.awaiting() ==> !s.spec_tap(now_ms).1,
{
}

/// A tap that follows the first one within `MIN_TAP_INTERVAL_MS` changes
/// nothing: the recorded first-tap time survives key-repeat noise, so a
/// properly timed later tap can still confirm.
pub proof fn lemma_noise_is_ignored(s: DoubleTapState, now_ms: u64)
    requires
        s.awaiting(),
        s.spec_elapsed(now_ms) <= MIN_TAP_INTERVAL_MS,
    ensures
        s.spec_tap(now_ms) == (s, false),
{
}

/// A tap that arrives after `DOUBLE_TAP_TIMEOUT_MS` does not confirm; it
/// becomes the new reference point, so a further tap inside the window
/// measured from it confirms.
pub proof fn lemma_late_tap_restarts(s: DoubleTapState, now_ms: u64, later_ms: u64)
    requires
        s.awaiting(),
        s.spec_elapsed(now_ms) > DOUBLE_TAP_TIMEOUT_MS,
        now_ms + MIN_TAP_INTERVAL_MS < later_ms <= now_ms + DOUBLE_TAP_TIMEOUT_MS,
    ensures
        !s.spec_tap(now_ms).1,
        s.spec_tap(now_ms).0.first_tap_time == Some(now_ms),
        s.spec_tap(now_ms).0.spec_tap(later_ms).1,
{
}

} // verus!
