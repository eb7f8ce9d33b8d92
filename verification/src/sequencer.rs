//! Termination sequencer: decide, then wait for artefacts, then exit.
//!
//! Artefact writers (screenshot encoders) may complete asynchronously after
//! the tick that requested them; exiting before they flush yields zero-byte
//! or missing files. So the sequencer captures the decided verdict once and
//! only acts after every expected artefact file is confirmed non-empty: a
//! positive verdict becomes a graceful exit request, a negative one a fatal
//! test failure.

use vstd::prelude::*;

verus! {

/// What the caller must do after a sequencer tick.
#[derive(Clone, Copy, Debug, PartialEq, Eq, Structural)]
pub enum ExitAction {
    /// Keep ticking.
    Continue,
    /// Request graceful process termination: the test passed.
    ExitPassed,
    /// Signal a fatal test failure: abnormal termination, never swallowed.
    FailTest,
}

/// Captures the decided verdict once, then polls the artefact predicate.
pub struct TerminationSequencer {
    /// The verdict as captured on the tick it was decided; store-once.
    pub result: Option<bool>,
}

/// What one sequencer tick does to its stored verdict.
pub open spec fn spec_capture(result: Option<bool>, decided_event: Option<bool>) -> Option<bool> {
    match result {
        None => decided_event,
        Some(_) => result,
    }
}

/// The action owed for a stored verdict and an artefact confirmation.
pub open spec fn spec_exit_action(result: Option<bool>, artefacts_saved: bool) -> ExitAction {
    match result {
        Some(passed) => if artefacts_saved {
            if passed {
                ExitAction::ExitPassed
            } else {
                ExitAction::FailTest
            }
        } else {
            ExitAction::Continue
        },
        None => ExitAction::Continue,
    }
}

impl TerminationSequencer {
    /// A sequencer that has seen no verdict yet.
    pub fn new() -> (r: TerminationSequencer)
        ensures
            r.result is None,
    {
        TerminationSequencer { result: None }
    }

    /// One sequencer tick, run last in the pipeline.
    ///
    /// `decided_event` is the verdict state machine's decision event of this
    /// tick, if any; `artefacts_saved` is the confirmed-written predicate
    /// over the expected artefact files. Exit is requested only once a
    /// verdict is stored and the artefacts are confirmed, and then on the
    /// very tick of the confirmation.
    pub fn step(&mut self, decided_event: Option<bool>, artefacts_saved: bool) -> (r: ExitAction)
        ensures
            r == spec_exit_action(old(self).result, artefacts_saved),
            final(self).result == spec_capture(old(self).result, decided_event),
            r != ExitAction::Continue ==> old(self).result is Some && artefacts_saved,
    {
        match self.result {
            Some(passed) => {
                if artefacts_saved {
                    if passed {
                        ExitAction::ExitPassed
                    } else {
                        ExitAction::FailTest
                    }
                } else {
                    ExitAction::Continue
                }
            },
            None => {
                if decided_event.is_some() {
                    self.result = decided_event;
                }
                ExitAction::Continue
            },
        }
    }
}

/// The immediate action owed for a bare verdict, outside any artefact
/// pipeline: exit as soon as it reports a pass, fail as soon as it reports
/// a failure. This is the termination rule of runs that only watch a
/// timeout-guarded asserter.
pub fn exit_on_outcome(outcome: Option<bool>) -> (r: ExitAction)
    ensures
        r == spec_exit_action(outcome, true),
{
    match outcome {
        Some(true) => ExitAction::ExitPassed,
        Some(false) => ExitAction::FailTest,
        None => ExitAction::Continue,
    }
}

/// Termination gating: however long a verdict has been stored, no exit and
/// no failure is signalled while the artefact predicate is false; and once
/// it is true, the stored verdict acts on that very tick.
pub proof fn lemma_termination_gated(result: Option<bool>)
    ensures
        spec_exit_action(result, false) == ExitAction::Continue,
        result matches Some(passed) ==> spec_exit_action(result, true) == if passed {
            ExitAction::ExitPassed
        } else {
            ExitAction::FailTest
        },
{
}

} // verus!
