use bitt::codec::encode;
use bitt::gear::{GearError, PlaybackTestGear, PlaybackTestingOptions, TestMode};
use bitt::script::{InputEvent, Script, TimestampedEvent};

fn default_gear() -> PlaybackTestGear {
    PlaybackTestGear::new(String::from("smoke"), PlaybackTestingOptions::default())
}

fn read_only_gear() -> PlaybackTestGear {
    let mut options = PlaybackTestingOptions::default();
    options.read_only = true;
    PlaybackTestGear::new(String::from("smoke"), options)
}

#[test]
fn default_options_match_the_documented_run() {
    let o = PlaybackTestingOptions::default();
    assert!(!o.read_only);
    assert_eq!(o.assert_window_nanos, 5_000_000_000);
    assert!(o.collect_frame_metrics);
    assert!(!o.manual_start);
}

#[test]
fn paths_derive_from_the_case_name() {
    let gear = default_gear();
    assert_eq!(gear.script_path(), "bitt/test_scripts/smoke.bitt_script");
    assert_eq!(gear.artefact_path(), "bitt/artefacts/smoke");
}

#[test]
fn missing_script_starts_a_recording() {
    let gear = default_gear();
    match gear.start_mode(None) {
        Ok(TestMode::Recording(rec)) => assert_eq!(rec.script.events.len(), 0),
        _ => panic!("expected a fresh recording"),
    }
}

#[test]
fn missing_script_in_read_only_mode_is_fatal() {
    let gear = read_only_gear();
    match gear.start_mode(None) {
        Err(GearError::ScriptMissing) => {},
        _ => panic!("expected the configuration error"),
    }
}

#[test]
fn existing_script_starts_playback() {
    let script = Script {
        events: vec![
            TimestampedEvent { at_nanos: 10, event: InputEvent::KeyPress { key: 1 } },
            TimestampedEvent { at_nanos: 20, event: InputEvent::Quit },
        ],
    };
    let bytes = encode(&script);
    let gear = default_gear();
    match gear.start_mode(Some(bytes)) {
        Ok(TestMode::Playback(player)) => {
            assert_eq!(player.script.events, script.events);
        },
        _ => panic!("expected playback"),
    }
}

#[test]
fn malformed_script_is_rejected() {
    let gear = default_gear();
    match gear.start_mode(Some(vec![1, 2, 3])) {
        Err(GearError::ScriptMalformed) => {},
        _ => panic!("expected the decode error"),
    }
}

#[test]
fn decreasing_timestamps_are_rejected() {
    let script = Script {
        events: vec![
            TimestampedEvent { at_nanos: 20, event: InputEvent::KeyPress { key: 1 } },
            TimestampedEvent { at_nanos: 10, event: InputEvent::Quit },
        ],
    };
    let bytes = encode(&script);
    let gear = default_gear();
    match gear.start_mode(Some(bytes)) {
        Err(GearError::ScriptNotMonotone) => {},
        _ => panic!("expected the ordering error"),
    }
}
