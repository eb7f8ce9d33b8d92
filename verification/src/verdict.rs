//! Write-once pass/fail verdict of a test run.

use vstd::prelude::*;

verus! {

/// The outcome of a test run: unset until the first decisive call, then fixed.
///
/// Many independent assertion checks may race (across ticks) to report a
/// result; the first call to `pass` or `fail` wins and later calls are no-ops.
pub struct Asserter {
    pub outcome: Option<bool>,
}

/// What the verdict becomes when one decisive call lands on it.
pub open spec fn spec_decide(outcome: Option<bool>, passed: bool) -> Option<bool> {
    match outcome {
        Option::None => Option::Some(passed),
        Option::Some(_) => outcome,
    }
}

impl Asserter {
    pub open spec fn outcome_spec(&self) -> Option<bool> {
        self.outcome
    }

    /// A fresh asserter with no outcome yet.
    pub fn new() -> (r: Asserter)
        ensures
            r.outcome_spec() is None,
    {
        Asserter { outcome: None }
    }

    /// The outcome reported so far, if any.
    pub fn outcome(&self) -> (r: Option<bool>)
        ensures
            r == self.outcome_spec(),
    {
        self.outcome
    }

    /// Marks the test as passed; a no-op once any outcome is set.
    pub fn pass(&mut self)
        ensures
            final(self).outcome_spec() == spec_decide(old(self).outcome_spec(), true),
    {
        if self.outcome.is_none() {
            self.outcome = Some(true);
        }
    }

    /// Marks the test as failed; a no-op once any outcome is set.
    pub fn fail(&mut self)
        ensures
            final(self).outcome_spec() == spec_decide(old(self).outcome_spec(), false),
    {
        if self.outcome.is_none() {
            self.outcome = Some(false);
        }
    }
}

/// The verdict after a whole sequence of decisive calls, each recorded as the
/// value it tried to set (`true` for `pass`, `false` for `fail`).
pub open spec fn spec_decide_all(outcome: Option<bool>, calls: Seq<bool>) -> Option<bool>
    decreases calls.len(),
{
    if calls.len() == 0 {
        outcome
    } else {
        spec_decide_all(spec_decide(outcome, calls[0]), calls.skip(1))
    }
}

/// Write-once law: starting from an unset verdict, any sequence of `pass` and
/// `fail` calls leaves exactly the first call's value; later calls never
/// change it.
pub proof fn lemma_first_decision_wins(calls: Seq<bool>)
    ensures
        spec_decide_all(Option::None, calls) == if calls.len() == 0 {
            Option::<bool>::None
        } else {
            Option::Some(calls[0])
        },
    decreases calls.len(),
{
    if calls.len() > 0 {
        lemma_decided_stays(Option::Some(calls[0]), calls.skip(1));
    }
}

/// The verdict state machine that runs after playback is exhausted.
///
/// `Idle` until the terminal `Quit` is played; then `Armed` with a deadline
/// one assertion window ahead; then `Decided` once the externally owned
/// outcome reports, or the deadline passes with no report, which is a
/// failure, not a hang.
pub enum AssertPhase {
    Idle,
    Armed { deadline: u64 },
    Decided { passed: bool },
}

impl AssertPhase {
    /// The phase at the start of a playback run.
    pub fn new() -> (r: AssertPhase)
        ensures
            r is Idle,
    {
        AssertPhase::Idle
    }

    /// One tick of the verdict state machine, after the player ran.
    ///
    /// `start_asserting` is the player's exhaustion signal; `outcome` is the
    /// externally owned result, polled, never pushed. The return value is
    /// the decision event of this very tick, if any: the application passed,
    /// or it failed, or the deadline was crossed with no report.
    pub fn step(&mut self, now_nanos: u64, outcome: Option<bool>, start_asserting: bool,
        window_nanos: u64) -> (decided: Option<bool>)
        requires
            *old(self) is Idle && start_asserting ==> now_nanos + window_nanos <= u64::MAX,
        ensures
            *old(self) is Idle && start_asserting ==> *final(self) == (AssertPhase::Armed {
                deadline: (now_nanos + window_nanos) as u64,
            }) && decided is None,
            *old(self) is Idle && !start_asserting ==> *final(self) == *old(self) && decided is None,
            *old(self) matches AssertPhase::Armed { deadline } ==> {
                &&& outcome == Some(true) ==> *final(self) == (AssertPhase::Decided {
                    passed: true,
                }) && decided == Some(true)
                &&& outcome != Some(true) && (outcome == Some(false) || now_nanos >= deadline)
                    ==> *final(self) == (AssertPhase::Decided { passed: false }) && decided == Some(
                    false,
                )
                &&& outcome is None && now_nanos < deadline ==> *final(self) == *old(self)
                    && decided is None
            },
            *old(self) is Decided ==> *final(self) == *old(self) && decided is None,
    {
        match *self {
            AssertPhase::Idle => {
                if start_asserting {
                    *self = AssertPhase::Armed { deadline: now_nanos + window_nanos };
                }
                None
            },
            AssertPhase::Armed { deadline } => {
                if outcome == Some(true) {
                    *self = AssertPhase::Decided { passed: true };
                    Some(true)
                } else if outcome == Some(false) || now_nanos >= deadline {
                    *self = AssertPhase::Decided { passed: false };
                    Some(false)
                } else {
                    None
                }
            },
            AssertPhase::Decided { .. } => None,
        }
    }
}

/// Forces a failure once a run has gone on for the whole timeout; a no-op
/// before the deadline and after any decision.
pub fn timeout_check(asserter: &mut Asserter, now_nanos: u64, timeout_nanos: u64)
    ensures
        now_nanos >= timeout_nanos ==> final(asserter).outcome_spec() == spec_decide(
            old(asserter).outcome_spec(),
            false,
        ),
        now_nanos < timeout_nanos ==> *final(asserter) == *old(asserter),
{
    if now_nanos >= timeout_nanos {
        asserter.fail();
    }
}

/// Once decided, the verdict survives any further sequence of calls.
pub proof fn lemma_decided_stays(outcome: Option<bool>, calls: Seq<bool>)
    requires
        outcome is Some,
    ensures
        spec_decide_all(outcome, calls) == outcome,
    decreases calls.len(),
{
    if calls.len() > 0 {
        lemma_decided_stays(outcome, calls.skip(1));
    }
}

} // verus!
