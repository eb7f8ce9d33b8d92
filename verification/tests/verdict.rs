use bitt::verdict::{Asserter, AssertPhase};

#[test]
fn first_decision_wins_fail_then_pass() {
    let mut a = Asserter::new();
    assert_eq!(a.outcome(), None);
    a.fail();
    a.pass();
    a.fail();
    assert_eq!(a.outcome(), Some(false));
}

#[test]
fn first_decision_wins_pass_then_fail() {
    let mut a = Asserter::new();
    a.pass();
    a.fail();
    a.pass();
    assert_eq!(a.outcome(), Some(true));
}

#[test]
fn unset_until_first_call() {
    let a = Asserter::new();
    assert_eq!(a.outcome(), None);
}

const SECOND: u64 = 1_000_000_000;

#[test]
fn assert_phase_times_out_on_the_deadline_tick() {
    // Armed at t = 10 s with a 5 s window: stays armed strictly before
    // t = 15 s, decides false exactly when the deadline is crossed.
    let mut ph = AssertPhase::new();
    assert_eq!(ph.step(10 * SECOND, None, true, 5 * SECOND), None);
    assert_eq!(ph.step(12 * SECOND, None, false, 5 * SECOND), None);
    assert_eq!(ph.step(14 * SECOND + 999_999_999, None, false, 5 * SECOND), None);
    assert_eq!(ph.step(15 * SECOND, None, false, 5 * SECOND), Some(false));
    // Terminal: later reports change nothing.
    assert_eq!(ph.step(16 * SECOND, Some(true), false, 5 * SECOND), None);
}

#[test]
fn assert_phase_pass_within_window() {
    let mut ph = AssertPhase::new();
    assert_eq!(ph.step(0, None, true, 5 * SECOND), None);
    assert_eq!(ph.step(SECOND, Some(true), false, 5 * SECOND), Some(true));
    assert_eq!(ph.step(2 * SECOND, Some(true), false, 5 * SECOND), None);
}

#[test]
fn assert_phase_explicit_fail_within_window() {
    let mut ph = AssertPhase::new();
    assert_eq!(ph.step(0, None, true, 5 * SECOND), None);
    assert_eq!(ph.step(SECOND, Some(false), false, 5 * SECOND), Some(false));
}

#[test]
fn assert_phase_idle_until_started() {
    let mut ph = AssertPhase::new();
    assert_eq!(ph.step(0, Some(true), false, 5 * SECOND), None);
    assert_eq!(ph.step(100 * SECOND, Some(true), false, 5 * SECOND), None);
}

#[test]
fn timeout_check_fails_late_runs() {
    let mut a = Asserter::new();
    bitt::verdict::timeout_check(&mut a, 3 * SECOND, 10 * SECOND);
    assert_eq!(a.outcome(), None);
    bitt::verdict::timeout_check(&mut a, 10 * SECOND, 10 * SECOND);
    assert_eq!(a.outcome(), Some(false));
}

#[test]
fn timeout_check_never_overrides() {
    let mut a = Asserter::new();
    a.pass();
    bitt::verdict::timeout_check(&mut a, 20 * SECOND, 10 * SECOND);
    assert_eq!(a.outcome(), Some(true));
}
