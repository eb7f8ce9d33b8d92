//! The handle an application under test uses to talk to the harness: an
//! explicit start signal for runs with a long warm-up, and the write-once
//! outcome report.

use vstd::prelude::*;

use crate::verdict::spec_decide;

verus! {

/// Outcome and start-signal handle of the application under test.
pub struct TestWrangler {
    /// The reported outcome; write-once.
    pub outcome: Option<bool>,
    /// Whether the application declared itself ready; relevant only with a
    /// manual start.
    pub started: bool,
}

impl TestWrangler {
    /// A wrangler with no outcome and no start signal yet.
    pub fn new() -> (r: TestWrangler)
        ensures
            r.outcome is None,
            !r.started,
    {
        TestWrangler { outcome: None, started: false }
    }

    /// Starts recording or playback, for runs configured with a manual
    /// start; idempotent.
    pub fn start(&mut self)
        ensures
            *final(self) == (TestWrangler { started: true, ..*old(self) }),
    {
        self.started = true;
    }

    /// Marks the current test as passed; a no-op once any outcome is set.
    pub fn pass(&mut self)
        ensures
            final(self).outcome == spec_decide(old(self).outcome, true),
            final(self).started == old(self).started,
    {
        if self.outcome.is_none() {
            self.outcome = Some(true);
        }
    }

    /// Marks the current test as failed; a no-op once any outcome is set.
    pub fn fail(&mut self)
        ensures
            final(self).outcome == spec_decide(old(self).outcome, false),
            final(self).started == old(self).started,
    {
        if self.outcome.is_none() {
            self.outcome = Some(false);
        }
    }
}

} // verus!
