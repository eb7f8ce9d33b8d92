use bitt::anchor::ClockAnchor;
use bitt::codec::decode;
use bitt::recorder::{
    AxisReading, InputSnapshot, MoveDelta, PadButton, Recorder, SavePhase, ScrollDelta,
    SAVE_DELAY_NANOS,
};
use bitt::script::{CursorTarget, InputEvent, ScrollUnit, TimestampedEvent};

fn empty_snapshot() -> InputSnapshot {
    InputSnapshot {
        keys_down: vec![],
        mouse_down: vec![],
        pad_down: vec![],
        axes: vec![],
        scrolls: vec![],
        moves: vec![],
    }
}

fn anchored_at(nanos: u64) -> ClockAnchor {
    let mut anchor = ClockAnchor::new(false);
    anchor.mark_if_unset(nanos);
    anchor
}

fn events_of(rec: &Recorder) -> Vec<(u64, InputEvent)> {
    rec.script.events.iter().map(|e| (e.at_nanos, e.event)).collect()
}

#[test]
fn key_edges_are_recorded_once() {
    let anchor = anchored_at(0);
    let mut rec = Recorder::new();

    let mut snap = empty_snapshot();
    snap.keys_down = vec![10, 20];
    rec.tick(&anchor, 100, &snap);
    // Held keys produce nothing further.
    rec.tick(&anchor, 200, &snap);
    // Releasing one produces one release edge.
    snap.keys_down = vec![10];
    rec.tick(&anchor, 300, &snap);

    assert_eq!(
        events_of(&rec),
        vec![
            (100, InputEvent::KeyPress { key: 10 }),
            (100, InputEvent::KeyPress { key: 20 }),
            (300, InputEvent::KeyRelease { key: 20 }),
        ]
    );
}

#[test]
fn mouse_and_pad_edges_are_recorded() {
    let anchor = anchored_at(0);
    let mut rec = Recorder::new();
    let mut snap = empty_snapshot();
    snap.mouse_down = vec![0];
    snap.pad_down = vec![PadButton { pad: 1, button: 3 }];
    rec.tick(&anchor, 50, &snap);
    rec.tick(&anchor, 60, &empty_snapshot());
    assert_eq!(
        events_of(&rec),
        vec![
            (50, InputEvent::MouseButtonPress { button: 0 }),
            (50, InputEvent::ControllerButtonPress { pad: 1, button: 3 }),
            (60, InputEvent::MouseButtonRelease { button: 0 }),
            (60, InputEvent::ControllerButtonRelease { pad: 1, button: 3 }),
        ]
    );
}

#[test]
fn axis_changes_respect_the_dead_zone() {
    let anchor = anchored_at(0);
    let mut rec = Recorder::new();

    // First reading of a channel is always recorded.
    let mut snap = empty_snapshot();
    snap.axes = vec![AxisReading { pad: 0, axis: 1, value_milli: 500 }];
    rec.tick(&anchor, 10, &snap);

    // A drift of exactly 10 thousandths stays inside the dead zone.
    snap.axes = vec![AxisReading { pad: 0, axis: 1, value_milli: 510 }];
    rec.tick(&anchor, 20, &snap);

    // Eleven thousandths from the cached 500 is beyond it.
    snap.axes = vec![AxisReading { pad: 0, axis: 1, value_milli: 511 }];
    rec.tick(&anchor, 30, &snap);

    // The cache now holds 511, so 505 is within the dead zone again.
    snap.axes = vec![AxisReading { pad: 0, axis: 1, value_milli: 505 }];
    rec.tick(&anchor, 40, &snap);

    assert_eq!(
        events_of(&rec),
        vec![
            (10, InputEvent::ControllerAxisChange { pad: 0, axis: 1, value_milli: 500 }),
            (30, InputEvent::ControllerAxisChange { pad: 0, axis: 1, value_milli: 511 }),
        ]
    );
}

#[test]
fn scroll_and_move_deltas_are_recorded_in_order() {
    let anchor = anchored_at(0);
    let mut rec = Recorder::new();
    let mut snap = empty_snapshot();
    snap.scrolls = vec![ScrollDelta { unit: ScrollUnit::Line, x_milli: 0, y_milli: 1000 }];
    snap.moves = vec![
        MoveDelta { dx_milli: 5, dy_milli: -5, cursor: CursorTarget::Unchanged },
        MoveDelta {
            dx_milli: 1,
            dy_milli: 2,
            cursor: CursorTarget::MoveTo { x_milli: 100, y_milli: 200 },
        },
    ];
    rec.tick(&anchor, 70, &snap);
    assert_eq!(
        events_of(&rec),
        vec![
            (
                70,
                InputEvent::MouseScroll { unit: ScrollUnit::Line, x_milli: 0, y_milli: 1000 }
            ),
            (
                70,
                InputEvent::MouseMove { dx_milli: 5, dy_milli: -5, cursor: CursorTarget::Unchanged }
            ),
            (
                70,
                InputEvent::MouseMove {
                    dx_milli: 1,
                    dy_milli: 2,
                    cursor: CursorTarget::MoveTo { x_milli: 100, y_milli: 200 },
                }
            ),
        ]
    );
}

#[test]
fn no_anchor_means_no_recording() {
    let anchor = ClockAnchor::new(true);
    let mut rec = Recorder::new();
    let mut snap = empty_snapshot();
    snap.keys_down = vec![1, 2, 3];
    rec.tick(&anchor, 100, &snap);
    rec.tick(&anchor, 200, &snap);
    assert_eq!(events_of(&rec), vec![]);
}

#[test]
fn timestamps_are_relative_to_the_anchor() {
    let anchor = anchored_at(1_000);
    let mut rec = Recorder::new();
    let mut snap = empty_snapshot();
    snap.keys_down = vec![4];
    rec.tick(&anchor, 1_250, &snap);
    assert_eq!(events_of(&rec), vec![(250, InputEvent::KeyPress { key: 4 })]);
}

#[test]
fn finalize_appends_quit_and_encodes() {
    let anchor = anchored_at(0);
    let mut rec = Recorder::new();
    let mut snap = empty_snapshot();
    snap.keys_down = vec![9];
    rec.tick(&anchor, 100, &snap);
    let bytes = rec.finalize(&anchor, 400);
    let script = decode(bytes.as_slice()).expect("own encoding decodes");
    assert_eq!(
        script.events,
        vec![
            TimestampedEvent { at_nanos: 100, event: InputEvent::KeyPress { key: 9 } },
            TimestampedEvent { at_nanos: 400, event: InputEvent::Quit },
        ]
    );
}

#[test]
fn save_phase_waits_out_the_grace_delay() {
    let mut phase = SavePhase::new();
    assert!(!phase.step(100, false, false));
    // The verdict passes: the delay starts now.
    assert!(!phase.step(200, true, false));
    assert!(!phase.step(200 + SAVE_DELAY_NANOS - 1, true, false));
    assert!(phase.step(200 + SAVE_DELAY_NANOS, true, false));
    // Terminal: the save fires exactly once.
    assert!(!phase.step(200 + 2 * SAVE_DELAY_NANOS, true, false));
}

#[test]
fn save_phase_honours_an_external_quit() {
    let mut phase = SavePhase::new();
    assert!(!phase.step(0, false, true));
    assert!(phase.step(SAVE_DELAY_NANOS, false, false));
}
