use bitt::artefacts::{ArtefactPaths, CaptureRequests};
use bitt::sequencer::{exit_on_outcome, ExitAction, TerminationSequencer};

fn paths(headless: bool, metrics: bool) -> ArtefactPaths {
    ArtefactPaths::new(String::from("bitt/artefacts/case"), headless, metrics)
}

#[test]
fn artefact_files_live_under_the_case_directory() {
    let p = paths(false, true);
    assert_eq!(p.pre_assert_screenshot(), "bitt/artefacts/case/pre-assert.png");
    assert_eq!(p.post_assert_screenshot(), "bitt/artefacts/case/post-assert.png");
    assert_eq!(p.frame_metrics(), "bitt/artefacts/case/frame_metrics.json");
}

#[test]
fn saved_needs_every_expected_file_non_empty() {
    let p = paths(false, true);
    assert!(p.saved(Some(10), Some(20), Some(30)));
    assert!(!p.saved(None, Some(20), Some(30)));
    assert!(!p.saved(Some(10), None, Some(30)));
    assert!(!p.saved(Some(10), Some(20), None));
    // A zero-length file does not count as written.
    assert!(!p.saved(Some(0), Some(20), Some(30)));
    assert!(!p.saved(Some(10), Some(20), Some(0)));
}

#[test]
fn headless_runs_expect_no_screenshots() {
    let p = paths(true, true);
    assert!(p.saved(None, None, Some(1)));
    assert!(!p.saved(None, None, None));
}

#[test]
fn metrics_free_runs_expect_no_metrics_file() {
    let p = paths(false, false);
    assert!(p.saved(Some(1), Some(1), None));
    let p2 = paths(true, false);
    assert!(p2.saved(None, None, None));
}

#[test]
fn captures_fire_once_per_run() {
    let mut c = CaptureRequests::new();
    let quiet = c.step(false, false);
    assert!(!quiet.recreate_dir && !quiet.shoot_pre && !quiet.shoot_post);

    let on_start = c.step(true, false);
    assert!(on_start.recreate_dir && on_start.shoot_pre && !on_start.shoot_post);

    // A second start signal must not reissue the asynchronous capture.
    let again = c.step(true, false);
    assert!(!again.recreate_dir && !again.shoot_pre);

    let on_decided = c.step(false, true);
    assert!(on_decided.shoot_post);
    let after = c.step(false, true);
    assert!(!after.shoot_post);
}

#[test]
fn termination_waits_for_artefacts() {
    let mut seq = TerminationSequencer::new();
    // No verdict yet: nothing happens, however the files look.
    assert_eq!(seq.step(None, true), ExitAction::Continue);
    // The verdict arrives; this very tick only stores it.
    assert_eq!(seq.step(Some(true), true), ExitAction::Continue);
    // Files incomplete for many ticks: still no exit.
    assert_eq!(seq.step(None, false), ExitAction::Continue);
    assert_eq!(seq.step(None, false), ExitAction::Continue);
    // On the first confirmed check, the stored verdict acts.
    assert_eq!(seq.step(None, true), ExitAction::ExitPassed);
}

#[test]
fn negative_verdict_is_a_fatal_failure() {
    let mut seq = TerminationSequencer::new();
    assert_eq!(seq.step(Some(false), false), ExitAction::Continue);
    assert_eq!(seq.step(None, true), ExitAction::FailTest);
}

#[test]
fn bare_outcomes_map_straight_to_exit_actions() {
    assert_eq!(exit_on_outcome(None), ExitAction::Continue);
    assert_eq!(exit_on_outcome(Some(true)), ExitAction::ExitPassed);
    assert_eq!(exit_on_outcome(Some(false)), ExitAction::FailTest);
}

#[test]
fn verdict_is_captured_store_once() {
    let mut seq = TerminationSequencer::new();
    assert_eq!(seq.step(Some(false), false), ExitAction::Continue);
    // A later (bogus) decision event cannot overwrite the stored verdict.
    assert_eq!(seq.step(Some(true), true), ExitAction::FailTest);
}
