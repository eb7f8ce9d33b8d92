use bitt::codec::{decode, encode, RECORD_BYTES};
use bitt::script::{CursorTarget, InputEvent, Script, ScrollUnit, TimestampedEvent};

fn te(at_nanos: u64, event: InputEvent) -> TimestampedEvent {
    TimestampedEvent { at_nanos, event }
}

fn roundtrip(events: Vec<TimestampedEvent>) -> Vec<TimestampedEvent> {
    let script = Script { events };
    let bytes = encode(&script);
    decode(bytes.as_slice()).expect("well-formed bytes").events
}

#[test]
fn roundtrip_empty_script() {
    let got = roundtrip(vec![]);
    assert_eq!(got, vec![]);
}

#[test]
fn roundtrip_every_event_kind() {
    let events = vec![
        te(0, InputEvent::KeyPress { key: 32 }),
        te(1, InputEvent::KeyRelease { key: 32 }),
        te(2, InputEvent::MouseButtonPress { button: 0 }),
        te(3, InputEvent::MouseButtonRelease { button: 2 }),
        te(
            4,
            InputEvent::MouseScroll { unit: ScrollUnit::Line, x_milli: -1000, y_milli: 2000 },
        ),
        te(
            5,
            InputEvent::MouseScroll { unit: ScrollUnit::Pixel, x_milli: 0, y_milli: -12345 },
        ),
        te(
            6,
            InputEvent::MouseMove { dx_milli: -5, dy_milli: 17, cursor: CursorTarget::Unchanged },
        ),
        te(
            7,
            InputEvent::MouseMove {
                dx_milli: i32::MIN,
                dy_milli: i32::MAX,
                cursor: CursorTarget::MoveTo { x_milli: 640_000, y_milli: -480_000 },
            },
        ),
        te(8, InputEvent::ControllerButtonPress { pad: 1, button: 7 }),
        te(9, InputEvent::ControllerButtonRelease { pad: 1, button: 7 }),
        te(
            10,
            InputEvent::ControllerAxisChange { pad: 2, axis: 3, value_milli: -999 },
        ),
        te(u64::MAX, InputEvent::Quit),
    ];
    let got = roundtrip(events.clone());
    assert_eq!(got, events);
}

#[test]
fn encoded_record_layout_is_little_endian() {
    let script = Script {
        events: vec![te(
            0x0102030405060708,
            InputEvent::ControllerButtonPress { pad: 0x11223344, button: 0x0A0B0C0D },
        )],
    };
    let bytes = encode(&script);
    assert_eq!(bytes.len(), RECORD_BYTES);
    let expected: Vec<u8> = vec![
        6, // tag of a controller button press
        0, // flag unused
        0x44, 0x33, 0x22, 0x11, // pad, little-endian
        0x0D, 0x0C, 0x0B, 0x0A, // button, little-endian
        0, 0, 0, 0, // third slot unused
        0, 0, 0, 0, // fourth slot unused
        0x08, 0x07, 0x06, 0x05, 0x04, 0x03, 0x02, 0x01, // timestamp, little-endian
    ];
    assert_eq!(bytes, expected);
}

#[test]
fn signed_scalars_are_stored_biased() {
    let script = Script {
        events: vec![te(
            0,
            InputEvent::ControllerAxisChange { pad: 0, axis: 0, value_milli: 0 },
        )],
    };
    let bytes = encode(&script);
    // A zero value sits exactly at the bias, 2^31.
    assert_eq!(&bytes[10..14], &[0x00, 0x00, 0x00, 0x80]);
}

#[test]
fn decode_rejects_truncated_input() {
    let script = Script { events: vec![te(5, InputEvent::Quit)] };
    let mut bytes = encode(&script);
    bytes.pop();
    assert!(decode(bytes.as_slice()).is_none());
}

#[test]
fn decode_rejects_unknown_tag() {
    let script = Script { events: vec![te(5, InputEvent::Quit)] };
    let mut bytes = encode(&script);
    bytes[0] = 10;
    assert!(decode(bytes.as_slice()).is_none());
}

#[test]
fn decode_rejects_bad_scroll_flag() {
    let script = Script {
        events: vec![te(
            5,
            InputEvent::MouseScroll { unit: ScrollUnit::Line, x_milli: 1, y_milli: 1 },
        )],
    };
    let mut bytes = encode(&script);
    bytes[1] = 2;
    assert!(decode(bytes.as_slice()).is_none());
}

#[test]
fn decode_rejects_noncanonical_padding() {
    // A quit record carries zeroes in every slot; junk there must not
    // silently decode to the same event.
    let script = Script { events: vec![te(5, InputEvent::Quit)] };
    let mut bytes = encode(&script);
    bytes[2] = 1;
    assert!(decode(bytes.as_slice()).is_none());
}

#[test]
fn reload_reproduces_the_file_bytes() {
    let script = Script {
        events: vec![
            te(7, InputEvent::KeyPress { key: 3 }),
            te(
                9,
                InputEvent::MouseMove {
                    dx_milli: -1,
                    dy_milli: 2,
                    cursor: CursorTarget::MoveTo { x_milli: 5, y_milli: -6 },
                },
            ),
            te(11, InputEvent::Quit),
        ],
    };
    let bytes = encode(&script);
    let reloaded = decode(bytes.as_slice()).expect("well-formed bytes");
    assert_eq!(encode(&reloaded), bytes);
}

#[test]
fn decode_rejects_trailing_garbage() {
    let script = Script { events: vec![te(5, InputEvent::Quit)] };
    let mut bytes = encode(&script);
    bytes.push(0);
    assert!(decode(bytes.as_slice()).is_none());
}
