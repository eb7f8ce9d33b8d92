//! Clock anchor: the logical time zero of a test run.
//!
//! The wall clock at process start is not a valid reference, because the host
//! may spend ticks warming up. The anchor is set once, on the first tick
//! after activation: immediately in automatic mode, or on the first tick
//! after an explicit start signal in manual mode. While the anchor is unset,
//! the recorder and the player skip their ticks entirely.

use vstd::prelude::*;

verus! {

/// The time-zero reference of a run: absent until set, then never mutated.
pub struct ClockAnchor {
    /// Waits for an explicit start signal instead of firing on the first tick.
    pub manual: bool,
    /// The external start signal, relevant only in manual mode.
    pub started: bool,
    /// Absolute time of the anchor, once set.
    pub anchor: Option<u64>,
}

/// The anchor after one `mark_if_unset` at `now`: set the first time the
/// run is active, untouched otherwise.
pub open spec fn spec_marked(c: ClockAnchor, now: u64) -> Option<u64> {
    if c.anchor is None && (!c.manual || c.started) {
        Some(now)
    } else {
        c.anchor
    }
}

impl ClockAnchor {
    /// An unset anchor; in manual mode it waits for `start`.
    pub fn new(manual: bool) -> (r: ClockAnchor)
        ensures
            r.manual == manual,
            !r.started,
            r.anchor is None,
    {
        ClockAnchor { manual, started: false, anchor: None }
    }

    /// The external start signal; idempotent. Has an effect only in manual
    /// mode, where the anchor waits for it.
    pub fn start(&mut self)
        ensures
            *final(self) == (ClockAnchor { started: true, ..*old(self) }),
    {
        self.started = true;
    }

    /// Sets the anchor to `now` the first time the run is active; idempotent
    /// thereafter. In manual mode the run is active only once started.
    pub fn mark_if_unset(&mut self, now: u64)
        ensures
            final(self).manual == old(self).manual,
            final(self).started == old(self).started,
            final(self).anchor == spec_marked(*old(self), now),
    {
        if self.anchor.is_none() && (!self.manual || self.started) {
            self.anchor = Some(now);
        }
    }

    /// Whether the anchor is set, so that recording and playback may run.
    pub fn is_set(&self) -> (r: bool)
        ensures
            r == (self.anchor is Some),
    {
        self.anchor.is_some()
    }

    /// The absolute time of the anchor.
    pub fn get(&self) -> (r: Option<u64>)
        ensures
            r == self.anchor,
    {
        self.anchor
    }
}

} // verus!
