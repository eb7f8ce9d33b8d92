use bitt::artefacts::ArtefactPaths;
use bitt::gear::{PlaybackTestGear, PlaybackTestingOptions, TestMode};
use bitt::harness::{PlaybackHarness, RecordingHarness};
use bitt::recorder::InputSnapshot;
use bitt::script::InputEvent;
use bitt::sequencer::ExitAction;
use bitt::test_wrangler::TestWrangler;

const SECOND: u64 = 1_000_000_000;

fn snapshot(keys: Vec<u32>) -> InputSnapshot {
    InputSnapshot {
        keys_down: keys,
        mouse_down: vec![],
        pad_down: vec![],
        axes: vec![],
        scrolls: vec![],
        moves: vec![],
    }
}

/// Records a run, replays its saved script, and walks it to a graceful
/// exit with all artefacts confirmed.
#[test]
fn record_then_replay_reaches_a_passing_exit() {
    // Record: one key pressed at 1 s, released at 2 s; the verdict passes
    // at 3 s and the script saves after the grace delay.
    let mut rec = RecordingHarness::new(false);
    assert!(rec.tick(0, &snapshot(vec![]), false, false).save_bytes.is_none());
    assert!(rec.tick(SECOND, &snapshot(vec![42]), false, false).save_bytes.is_none());
    assert!(rec.tick(2 * SECOND, &snapshot(vec![]), false, false).save_bytes.is_none());
    assert!(rec.tick(3 * SECOND, &snapshot(vec![]), true, false).save_bytes.is_none());
    let bytes = rec
        .tick(4 * SECOND, &snapshot(vec![]), true, false)
        .save_bytes
        .expect("the grace delay has passed");

    // The saved bytes decode into a playable script.
    let gear = PlaybackTestGear::new(String::from("e2e"), PlaybackTestingOptions::default());
    let player = match gear.start_mode(Some(bytes)) {
        Ok(TestMode::Playback(p)) => p,
        _ => panic!("a saved script must play back"),
    };
    let paths = ArtefactPaths::new(gear.artefact_path(), false, true);
    let mut run = PlaybackHarness::new(player, paths, false, 5 * SECOND, true);

    // The first tick anchors the replay clock; its window is still empty.
    let t1 = run.tick(SECOND, SECOND / 60, None, None, None, None);
    assert_eq!(t1.events, vec![]);
    assert_eq!(t1.exit, ExitAction::Continue);

    // The press recorded at relative 1 s plays 1 s after the new anchor.
    let t2 = run.tick(5 * SECOND / 2, SECOND / 60, None, None, None, None);
    assert_eq!(t2.events, vec![InputEvent::KeyPress { key: 42 }]);
    assert!(!t2.start_asserting);

    let t3 = run.tick(7 * SECOND / 2, SECOND / 60, None, None, None, None);
    assert_eq!(t3.events, vec![InputEvent::KeyRelease { key: 42 }]);

    // The terminal quit: assertion starts, the artefact directory and the
    // pre-assert screenshot are requested.
    let t4 = run.tick(11 * SECOND / 2, SECOND / 60, None, None, None, None);
    assert_eq!(t4.events, vec![InputEvent::Quit]);
    assert!(t4.start_asserting);
    assert!(t4.capture.recreate_dir && t4.capture.shoot_pre);
    assert_eq!(t4.decided, None);

    // The application under test reports a pass: decided this tick, the
    // post-assert screenshot and the metrics file are owed.
    let t5 = run.tick(6 * SECOND, SECOND / 60, Some(true), None, None, None);
    assert_eq!(t5.decided, Some(true));
    assert!(t5.capture.shoot_post);
    assert!(t5.write_metrics);
    assert_eq!(t5.exit, ExitAction::Continue);

    // Artefacts still flushing: no exit, however long it takes.
    let t6 = run.tick(7 * SECOND, SECOND / 60, Some(true), Some(1), None, Some(1));
    assert_eq!(t6.exit, ExitAction::Continue);

    // All three files confirmed non-empty: graceful exit at once.
    let t7 = run.tick(8 * SECOND, SECOND / 60, Some(true), Some(1), Some(1), Some(1));
    assert_eq!(t7.exit, ExitAction::ExitPassed);

    // The metrics collector saw every anchored tick.
    assert_eq!(run.collector.samples.len(), 7);
}

#[test]
fn replay_timeout_fails_the_run() {
    let mut rec = RecordingHarness::new(false);
    rec.tick(0, &snapshot(vec![]), false, false);
    // An external quit signal starts the grace delay; the save fires on
    // the first tick past it.
    assert!(rec.tick(SECOND, &snapshot(vec![]), false, true).save_bytes.is_none());
    let bytes = rec
        .tick(2 * SECOND, &snapshot(vec![]), false, false)
        .save_bytes
        .expect("the grace delay has passed");

    let gear = PlaybackTestGear::new(String::from("timeout"), PlaybackTestingOptions::default());
    let player = match gear.start_mode(Some(bytes)) {
        Ok(TestMode::Playback(p)) => p,
        _ => panic!("a saved script must play back"),
    };
    let paths = ArtefactPaths::new(gear.artefact_path(), true, false);
    let mut run = PlaybackHarness::new(player, paths, false, 5 * SECOND, false);

    // The first tick anchors at 2 s; the quit recorded at relative 2 s
    // plays once that much time passes again, arming a deadline 5 s ahead.
    let t1 = run.tick(2 * SECOND, SECOND / 60, None, None, None, None);
    assert!(!t1.start_asserting);
    let t2 = run.tick(5 * SECOND, SECOND / 60, None, None, None, None);
    assert!(t2.start_asserting);

    // No outcome before the deadline at 10 s: still waiting.
    let t3 = run.tick(9 * SECOND, SECOND / 60, None, None, None, None);
    assert_eq!(t3.decided, None);

    // The deadline crossed with no report: a failure, not a hang. With a
    // headless, metrics-free run nothing else is expected, so the failure
    // surfaces on the next check.
    let t4 = run.tick(10 * SECOND, SECOND / 60, None, None, None, None);
    assert_eq!(t4.decided, Some(false));
    let t5 = run.tick(11 * SECOND, SECOND / 60, None, None, None, None);
    assert_eq!(t5.exit, ExitAction::FailTest);
}

#[test]
fn manual_start_defers_the_anchor() {
    let mut rec = RecordingHarness::new(true);
    // Ticks before the start signal record nothing at all.
    rec.tick(0, &snapshot(vec![7]), false, false);
    rec.tick(SECOND, &snapshot(vec![7]), false, false);
    assert_eq!(rec.recorder.script.events.len(), 0);
    // After the signal the anchor lands on the next tick, and the held key
    // shows up as a fresh press relative to the new time zero.
    rec.start();
    rec.tick(2 * SECOND, &snapshot(vec![7]), false, false);
    assert_eq!(rec.recorder.script.events.len(), 1);
    assert_eq!(rec.recorder.script.events[0].at_nanos, 0);
    assert_eq!(rec.recorder.script.events[0].event, InputEvent::KeyPress { key: 7 });
}

#[test]
fn wrangler_outcome_is_write_once() {
    let mut w = TestWrangler::new();
    assert!(!w.started);
    w.start();
    w.start();
    assert!(w.started);
    w.fail();
    w.pass();
    assert_eq!(w.outcome, Some(false));
}
