use bitt::anchor::ClockAnchor;
use bitt::player::Player;
use bitt::script::{InputEvent, Script, TimestampedEvent};

fn te(at_nanos: u64, event: InputEvent) -> TimestampedEvent {
    TimestampedEvent { at_nanos, event }
}

fn key(k: u32) -> InputEvent {
    InputEvent::KeyPress { key: k }
}

fn anchored_at(nanos: u64) -> ClockAnchor {
    let mut anchor = ClockAnchor::new(false);
    anchor.mark_if_unset(nanos);
    anchor
}

const TENTH: u64 = 100_000_000;

#[test]
fn replay_covers_every_event_once_in_order() {
    // Events at relative times 0.0, 0.5, 1.2, 1.2, 3.0 seconds; ticks at
    // elapsed 0.4, 1.3, 3.5. The half-open windows (last, now] deliver
    // {0.0}, then {0.5} with the two tied at 1.2 in script order, then
    // {3.0}: every event exactly once, none skipped, ties in order.
    let script = Script {
        events: vec![
            te(0, key(1)),
            te(5 * TENTH, key(2)),
            te(12 * TENTH, key(3)),
            te(12 * TENTH, key(4)),
            te(30 * TENTH, key(5)),
        ],
    };
    let anchor = anchored_at(0);
    let mut player = Player::new(script);

    let d1 = player.tick(&anchor, 4 * TENTH);
    assert_eq!(d1.events, vec![key(1)]);
    assert!(!d1.start_asserting);

    let d2 = player.tick(&anchor, 13 * TENTH);
    assert_eq!(d2.events, vec![key(2), key(3), key(4)]);

    let d3 = player.tick(&anchor, 35 * TENTH);
    assert_eq!(d3.events, vec![key(5)]);

    let d4 = player.tick(&anchor, 50 * TENTH);
    assert_eq!(d4.events, vec![]);
}

#[test]
fn replay_window_is_relative_to_the_anchor() {
    // Anchored at 2.0 s of absolute time: an event at relative 0.5 s plays
    // on the tick whose absolute time passes 2.5 s.
    let script = Script { events: vec![te(5 * TENTH, key(9))] };
    let anchor = anchored_at(20 * TENTH);
    let mut player = Player::new(script);
    let d1 = player.tick(&anchor, 24 * TENTH);
    assert_eq!(d1.events, vec![]);
    let d2 = player.tick(&anchor, 26 * TENTH);
    assert_eq!(d2.events, vec![key(9)]);
}

#[test]
fn no_anchor_means_no_playback() {
    let script = Script { events: vec![te(0, key(1))] };
    let anchor = ClockAnchor::new(true);
    let mut player = Player::new(script);
    let d1 = player.tick(&anchor, 10 * TENTH);
    let d2 = player.tick(&anchor, 20 * TENTH);
    assert_eq!(d1.events, vec![]);
    assert_eq!(d2.events, vec![]);
    assert!(!d1.start_asserting && !d2.start_asserting);
}

#[test]
fn quit_raises_start_asserting() {
    let script = Script {
        events: vec![te(TENTH, key(1)), te(2 * TENTH, InputEvent::Quit)],
    };
    let anchor = anchored_at(0);
    let mut player = Player::new(script);
    let d = player.tick(&anchor, 3 * TENTH);
    assert_eq!(d.events, vec![key(1), InputEvent::Quit]);
    assert!(d.start_asserting);
}

#[test]
fn pads_connect_once_in_first_occurrence_order() {
    let script = Script {
        events: vec![
            te(0, InputEvent::ControllerAxisChange { pad: 7, axis: 0, value_milli: 100 }),
            te(1, InputEvent::ControllerButtonPress { pad: 3, button: 1 }),
            te(2, InputEvent::ControllerButtonRelease { pad: 7, button: 1 }),
            te(3, key(1)),
            te(4, InputEvent::ControllerButtonPress { pad: 5, button: 2 }),
        ],
    };
    let mut player = Player::new(script);
    assert_eq!(player.pads_to_connect(), vec![7, 3, 5]);
    assert_eq!(player.pads_to_connect(), Vec::<u32>::new());
}
