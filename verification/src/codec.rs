//! Byte serialization of scripts.
//!
//! Each timestamped event is one fixed-size record of 26 bytes: a tag byte, a
//! flag byte, four 32-bit scalar slots and the 64-bit timestamp, all
//! little-endian. Signed scalars are stored biased by 2^31. A script is the
//! plain concatenation of its records; decoding rejects anything that is not
//! an exact sequence of well-formed records.

use vstd::prelude::*;

use crate::script::{CursorTarget, InputEvent, Script, ScrollUnit, TimestampedEvent};

verus! {

/// Bytes of one encoded record.
pub const RECORD_BYTES: usize = 26;

/// Little-endian bytes of a 32-bit scalar.
pub open spec fn le4(v: u32) -> Seq<u8> {
    seq![
        (v % 256) as u8,
        ((v / 256) % 256) as u8,
        ((v / 256 / 256) % 256) as u8,
        ((v / 256 / 256 / 256) % 256) as u8,
    ]
}

/// Little-endian bytes of a 64-bit scalar.
pub open spec fn le8(v: u64) -> Seq<u8> {
    seq![
        (v % 256) as u8,
        ((v / 256) % 256) as u8,
        ((v / 256 / 256) % 256) as u8,
        ((v / 256 / 256 / 256) % 256) as u8,
        ((v / 256 / 256 / 256 / 256) % 256) as u8,
        ((v / 256 / 256 / 256 / 256 / 256) % 256) as u8,
        ((v / 256 / 256 / 256 / 256 / 256 / 256) % 256) as u8,
        ((v / 256 / 256 / 256 / 256 / 256 / 256 / 256) % 256) as u8,
    ]
}

/// The 32-bit scalar whose little-endian bytes are the four arguments.
pub open spec fn dec32(b0: u8, b1: u8, b2: u8, b3: u8) -> u32 {
    (b0 + 256 * b1 + 65536 * b2 + 16777216 * b3) as u32
}

/// The 64-bit scalar whose little-endian bytes are the eight arguments.
pub open spec fn dec64(b0: u8, b1: u8, b2: u8, b3: u8, b4: u8, b5: u8, b6: u8, b7: u8) -> u64 {
    (b0 + 256 * b1 + 65536 * b2 + 16777216 * b3 + 4294967296 * b4 + 1099511627776 * b5
        + 281474976710656 * b6 + 72057594037927936 * b7) as u64
}

/// A signed scalar shifted into unsigned range for storage.
pub open spec fn bias(v: i32) -> u32 {
    (v + 0x8000_0000) as u32
}

/// Inverse of `bias`.
pub open spec fn unbias(u: u32) -> i32 {
    (u - 0x8000_0000) as i32
}

pub proof fn lemma_le4_roundtrip(v: u32)
    ensures
        dec32(le4(v)[0], le4(v)[1], le4(v)[2], le4(v)[3]) == v,
{
    assert(v == v % 256 + 256 * (v / 256));
    assert(v / 256 == (v / 256) % 256 + 256 * (v / 256 / 256));
    assert(v / 256 / 256 == (v / 256 / 256) % 256 + 256 * (v / 256 / 256 / 256));
    assert(v / 256 / 256 / 256 < 256);
}

pub proof fn lemma_le8_roundtrip(v: u64)
    ensures
        dec64(le8(v)[0], le8(v)[1], le8(v)[2], le8(v)[3], le8(v)[4], le8(v)[5], le8(v)[6],
            le8(v)[7]) == v,
{
    assert(v == v % 256 + 256 * (v / 256));
    assert(v / 256 == (v / 256) % 256 + 256 * (v / 256 / 256));
    assert(v / 256 / 256 == (v / 256 / 256) % 256 + 256 * (v / 256 / 256 / 256));
    assert(v / 256 / 256 / 256 == (v / 256 / 256 / 256) % 256 + 256 * (v / 256 / 256 / 256 / 256));
    assert(v / 256 / 256 / 256 / 256 == (v / 256 / 256 / 256 / 256) % 256 + 256 * (v / 256 / 256
        / 256 / 256 / 256));
    assert(v / 256 / 256 / 256 / 256 / 256 == (v / 256 / 256 / 256 / 256 / 256) % 256 + 256 * (v
        / 256 / 256 / 256 / 256 / 256 / 256));
    assert(v / 256 / 256 / 256 / 256 / 256 / 256 == (v / 256 / 256 / 256 / 256 / 256 / 256) % 256
        + 256 * (v / 256 / 256 / 256 / 256 / 256 / 256 / 256));
    assert(v / 256 / 256 / 256 / 256 / 256 / 256 / 256 < 256);
}

/// Record tag of an event.
pub open spec fn rec_tag(e: InputEvent) -> u8 {
    match e {
        InputEvent::KeyPress { .. } => 0,
        InputEvent::KeyRelease { .. } => 1,
        InputEvent::MouseButtonPress { .. } => 2,
        InputEvent::MouseButtonRelease { .. } => 3,
        InputEvent::MouseScroll { .. } => 4,
        InputEvent::MouseMove { .. } => 5,
        InputEvent::ControllerButtonPress { .. } => 6,
        InputEvent::ControllerButtonRelease { .. } => 7,
        InputEvent::ControllerAxisChange { .. } => 8,
        InputEvent::Quit => 9,
    }
}

/// Record flag byte: the scroll unit or the cursor-warp marker; zero elsewhere.
pub open spec fn rec_flag(e: InputEvent) -> u8 {
    match e {
        InputEvent::MouseScroll { unit, .. } => match unit {
            ScrollUnit::Line => 0,
            ScrollUnit::Pixel => 1,
        },
        InputEvent::MouseMove { cursor, .. } => match cursor {
            CursorTarget::Unchanged => 0,
            CursorTarget::MoveTo { .. } => 1,
        },
        _ => 0,
    }
}

/// First 32-bit slot of a record.
pub open spec fn rec_a(e: InputEvent) -> u32 {
    match e {
        InputEvent::KeyPress { key } => key,
        InputEvent::KeyRelease { key } => key,
        InputEvent::MouseButtonPress { button } => button,
        InputEvent::MouseButtonRelease { button } => button,
        InputEvent::MouseScroll { x_milli, .. } => bias(x_milli),
        InputEvent::MouseMove { dx_milli, .. } => bias(dx_milli),
        InputEvent::ControllerButtonPress { pad, .. } => pad,
        InputEvent::ControllerButtonRelease { pad, .. } => pad,
        InputEvent::ControllerAxisChange { pad, .. } => pad,
        InputEvent::Quit => 0,
    }
}

/// Second 32-bit slot of a record.
pub open spec fn rec_b(e: InputEvent) -> u32 {
    match e {
        InputEvent::MouseScroll { y_milli, .. } => bias(y_milli),
        InputEvent::MouseMove { dy_milli, .. } => bias(dy_milli),
        InputEvent::ControllerButtonPress { button, .. } => button,
        InputEvent::ControllerButtonRelease { button, .. } => button,
        InputEvent::ControllerAxisChange { axis, .. } => axis,
        _ => 0,
    }
}

/// Third 32-bit slot of a record.
pub open spec fn rec_c(e: InputEvent) -> u32 {
    match e {
        InputEvent::MouseMove { cursor, .. } => match cursor {
            CursorTarget::Unchanged => 0,
            CursorTarget::MoveTo { x_milli, .. } => bias(x_milli),
        },
        InputEvent::ControllerAxisChange { value_milli, .. } => bias(value_milli),
        _ => 0,
    }
}

/// Fourth 32-bit slot of a record.
pub open spec fn rec_d(e: InputEvent) -> u32 {
    match e {
        InputEvent::MouseMove { cursor, .. } => match cursor {
            CursorTarget::Unchanged => 0,
            CursorTarget::MoveTo { y_milli, .. } => bias(y_milli),
        },
        _ => 0,
    }
}

/// The 26 bytes of one record.
pub open spec fn spec_encode_record(te: TimestampedEvent) -> Seq<u8> {
    seq![rec_tag(te.event), rec_flag(te.event)] + le4(rec_a(te.event)) + le4(rec_b(te.event))
        + le4(rec_c(te.event)) + le4(rec_d(te.event)) + le8(te.at_nanos)
}

/// The event a 26-byte record stands for; `None` unless the record is
/// canonical: a known tag, a valid flag, and zeroes in every unused slot,
/// so that re-encoding a decoded record reproduces its bytes exactly.
pub open spec fn spec_decode_record(r: Seq<u8>) -> Option<TimestampedEvent>
    recommends
        r.len() == 26,
{
    let tag = r[0];
    let flag = r[1];
    let a = dec32(r[2], r[3], r[4], r[5]);
    let b = dec32(r[6], r[7], r[8], r[9]);
    let c = dec32(r[10], r[11], r[12], r[13]);
    let d = dec32(r[14], r[15], r[16], r[17]);
    let t = dec64(r[18], r[19], r[20], r[21], r[22], r[23], r[24], r[25]);
    if tag == 0 && flag == 0 && b == 0 && c == 0 && d == 0 {
        Some(TimestampedEvent { at_nanos: t, event: InputEvent::KeyPress { key: a } })
    } else if tag == 1 && flag == 0 && b == 0 && c == 0 && d == 0 {
        Some(TimestampedEvent { at_nanos: t, event: InputEvent::KeyRelease { key: a } })
    } else if tag == 2 && flag == 0 && b == 0 && c == 0 && d == 0 {
        Some(TimestampedEvent { at_nanos: t, event: InputEvent::MouseButtonPress { button: a } })
    } else if tag == 3 && flag == 0 && b == 0 && c == 0 && d == 0 {
        Some(TimestampedEvent { at_nanos: t, event: InputEvent::MouseButtonRelease { button: a } })
    } else if tag == 4 {
        if flag <= 1 && c == 0 && d == 0 {
            Some(
                TimestampedEvent {
                    at_nanos: t,
                    event: InputEvent::MouseScroll {
                        unit: if flag == 0 {
                            ScrollUnit::Line
                        } else {
                            ScrollUnit::Pixel
                        },
                        x_milli: unbias(a),
                        y_milli: unbias(b),
                    },
                },
            )
        } else {
            None
        }
    } else if tag == 5 {
        if flag <= 1 && (flag == 1 || (c == 0 && d == 0)) {
            Some(
                TimestampedEvent {
                    at_nanos: t,
                    event: InputEvent::MouseMove {
                        dx_milli: unbias(a),
                        dy_milli: unbias(b),
                        cursor: if flag == 0 {
                            CursorTarget::Unchanged
                        } else {
                            CursorTarget::MoveTo { x_milli: unbias(c), y_milli: unbias(d) }
                        },
                    },
                },
            )
        } else {
            None
        }
    } else if tag == 6 && flag == 0 && c == 0 && d == 0 {
        Some(
            TimestampedEvent {
                at_nanos: t,
                event: InputEvent::ControllerButtonPress { pad: a, button: b },
            },
        )
    } else if tag == 7 && flag == 0 && c == 0 && d == 0 {
        Some(
            TimestampedEvent {
                at_nanos: t,
                event: InputEvent::ControllerButtonRelease { pad: a, button: b },
            },
        )
    } else if tag == 8 && flag == 0 && d == 0 {
        Some(
            TimestampedEvent {
                at_nanos: t,
                event: InputEvent::ControllerAxisChange { pad: a, axis: b, value_milli: unbias(c) },
            },
        )
    } else if tag == 9 && flag == 0 && a == 0 && b == 0 && c == 0 && d == 0 {
        Some(TimestampedEvent { at_nanos: t, event: InputEvent::Quit })
    } else {
        None
    }
}

/// The bytes of a whole script: its records, concatenated in order.
pub open spec fn spec_encode(s: Seq<TimestampedEvent>) -> Seq<u8>
    decreases s.len(),
{
    if s.len() == 0 {
        Seq::empty()
    } else {
        spec_encode(s.drop_last()) + spec_encode_record(s.last())
    }
}

/// The event sequence a byte string stands for: `None` unless the bytes are
/// exactly a sequence of well-formed records.
pub open spec fn spec_decode(b: Seq<u8>) -> Option<Seq<TimestampedEvent>>
    decreases b.len(),
{
    if b.len() == 0 {
        Some(Seq::empty())
    } else if b.len() < 26 {
        None
    } else {
        match spec_decode_record(b.take(26)) {
            None => None,
            Some(te) => match spec_decode(b.skip(26)) {
                None => None,
                Some(rest) => Some(seq![te] + rest),
            },
        }
    }
}

pub proof fn lemma_encode_record_len(te: TimestampedEvent)
    ensures
        spec_encode_record(te).len() == 26,
{
}

pub proof fn lemma_encode_len(s: Seq<TimestampedEvent>)
    ensures
        spec_encode(s).len() == 26 * s.len(),
    decreases s.len(),
{
    if s.len() > 0 {
        lemma_encode_len(s.drop_last());
    }
}

/// Decoding one encoded record gives back exactly the event that produced it.
pub proof fn lemma_record_roundtrip(te: TimestampedEvent)
    ensures
        spec_decode_record(spec_encode_record(te)) == Some(te),
{
    let e = te.event;
    let r = spec_encode_record(te);
    assert(r.len() == 26);
    assert(r[0] == rec_tag(e));
    assert(r[1] == rec_flag(e));
    assert(r[2] == le4(rec_a(e))[0] && r[3] == le4(rec_a(e))[1] && r[4] == le4(rec_a(e))[2] && r[5]
        == le4(rec_a(e))[3]);
    assert(r[6] == le4(rec_b(e))[0] && r[7] == le4(rec_b(e))[1] && r[8] == le4(rec_b(e))[2] && r[9]
        == le4(rec_b(e))[3]);
    assert(r[10] == le4(rec_c(e))[0] && r[11] == le4(rec_c(e))[1] && r[12] == le4(rec_c(e))[2]
        && r[13] == le4(rec_c(e))[3]);
    assert(r[14] == le4(rec_d(e))[0] && r[15] == le4(rec_d(e))[1] && r[16] == le4(rec_d(e))[2]
        && r[17] == le4(rec_d(e))[3]);
    assert(r[18] == le8(te.at_nanos)[0] && r[19] == le8(te.at_nanos)[1] && r[20] == le8(
        te.at_nanos,
    )[2] && r[21] == le8(te.at_nanos)[3] && r[22] == le8(te.at_nanos)[4] && r[23] == le8(
        te.at_nanos,
    )[5] && r[24] == le8(te.at_nanos)[6] && r[25] == le8(te.at_nanos)[7]);
    lemma_le4_roundtrip(rec_a(e));
    lemma_le4_roundtrip(rec_b(e));
    lemma_le4_roundtrip(rec_c(e));
    lemma_le4_roundtrip(rec_d(e));
    lemma_le8_roundtrip(te.at_nanos);
    assert(dec32(r[2], r[3], r[4], r[5]) == rec_a(e));
    assert(dec32(r[6], r[7], r[8], r[9]) == rec_b(e));
    assert(dec32(r[10], r[11], r[12], r[13]) == rec_c(e));
    assert(dec32(r[14], r[15], r[16], r[17]) == rec_d(e));
    assert(dec64(r[18], r[19], r[20], r[21], r[22], r[23], r[24], r[25]) == te.at_nanos);
}

/// A non-empty encoding starts with the first record.
proof fn lemma_encode_front(s: Seq<TimestampedEvent>)
    requires
        s.len() > 0,
    ensures
        spec_encode(s) == spec_encode_record(s[0]) + spec_encode(s.drop_first()),
    decreases s.len(),
{
    if s.len() == 1 {
        assert(s.drop_last() =~= Seq::empty());
        assert(s.drop_first() =~= Seq::empty());
        assert(spec_encode(s) =~= spec_encode_record(s[0]) + spec_encode(s.drop_first()));
    } else {
        lemma_encode_front(s.drop_last());
        assert(s.drop_last()[0] == s[0]);
        assert(s.drop_last().drop_first() =~= s.drop_first().drop_last());
        assert(s.drop_first().last() == s.last());
        assert(spec_encode(s) == (spec_encode_record(s[0]) + spec_encode(s.drop_first().drop_last()))
            + spec_encode_record(s.drop_first().last()));
        assert((spec_encode_record(s[0]) + spec_encode(s.drop_first().drop_last()))
            + spec_encode_record(s.drop_first().last()) =~= spec_encode_record(s[0]) + (spec_encode(
            s.drop_first().drop_last(),
        ) + spec_encode_record(s.drop_first().last())));
    }
}

/// Round trip: decoding an encoded script yields exactly the encoded events,
/// for any script including the empty one.
pub proof fn lemma_codec_roundtrip(s: Seq<TimestampedEvent>)
    ensures
        spec_decode(spec_encode(s)) == Some(s),
    decreases s.len(),
{
    if s.len() == 0 {
        assert(spec_encode(s).len() == 0);
        assert(spec_decode(spec_encode(s)) == Some(Seq::<TimestampedEvent>::empty()));
        assert(Seq::<TimestampedEvent>::empty() =~= s);
    } else {
        let b = spec_encode(s);
        lemma_encode_front(s);
        lemma_encode_len(s);
        lemma_encode_len(s.drop_first());
        assert(b.len() == 26 * s.len());
        assert(b.take(26) =~= spec_encode_record(s[0]));
        lemma_record_roundtrip(s[0]);
        assert(b.skip(26) =~= spec_encode(s.drop_first()));
        lemma_codec_roundtrip(s.drop_first());
        assert(seq![s[0]] + s.drop_first() =~= s);
    }
}

/// Any four bytes are exactly the little-endian digits of the scalar they
/// decode to.
pub proof fn lemma_le4_complete(b0: u8, b1: u8, b2: u8, b3: u8)
    ensures
        le4(dec32(b0, b1, b2, b3)) =~= seq![b0, b1, b2, b3],
{
    let v = dec32(b0, b1, b2, b3);
    assert(v == b0 + 256 * (b1 + 256 * b2 + 65536 * b3));
    assert(v % 256 == b0 && v / 256 == b1 + 256 * b2 + 65536 * b3);
    assert((v / 256) % 256 == b1 && v / 256 / 256 == b2 + 256 * b3);
    assert((v / 256 / 256) % 256 == b2 && v / 256 / 256 / 256 == b3);
}

/// Any eight bytes are exactly the little-endian digits of the scalar they
/// decode to.
#[verifier::rlimit(60)]
pub proof fn lemma_le8_complete(b0: u8, b1: u8, b2: u8, b3: u8, b4: u8, b5: u8, b6: u8, b7: u8)
    ensures
        le8(dec64(b0, b1, b2, b3, b4, b5, b6, b7)) =~= seq![b0, b1, b2, b3, b4, b5, b6, b7],
{
    let v = dec64(b0, b1, b2, b3, b4, b5, b6, b7);
    assert(v == b0 + 256 * (b1 + 256 * b2 + 65536 * b3 + 16777216 * b4 + 4294967296 * b5
        + 1099511627776 * b6 + 281474976710656 * b7));
    assert(v % 256 == b0 && v / 256 == b1 + 256 * b2 + 65536 * b3 + 16777216 * b4 + 4294967296 * b5
        + 1099511627776 * b6 + 281474976710656 * b7);
    assert((v / 256) % 256 == b1 && v / 256 / 256 == b2 + 256 * b3 + 65536 * b4 + 16777216 * b5
        + 4294967296 * b6 + 1099511627776 * b7);
    assert((v / 256 / 256) % 256 == b2 && v / 256 / 256 / 256 == b3 + 256 * b4 + 65536 * b5
        + 16777216 * b6 + 4294967296 * b7);
    assert((v / 256 / 256 / 256) % 256 == b3 && v / 256 / 256 / 256 / 256 == b4 + 256 * b5 + 65536
        * b6 + 16777216 * b7);
    assert((v / 256 / 256 / 256 / 256) % 256 == b4 && v / 256 / 256 / 256 / 256 / 256 == b5 + 256
        * b6 + 65536 * b7);
    assert((v / 256 / 256 / 256 / 256 / 256) % 256 == b5 && v / 256 / 256 / 256 / 256 / 256 / 256
        == b6 + 256 * b7);
    assert((v / 256 / 256 / 256 / 256 / 256 / 256) % 256 == b6 && v / 256 / 256 / 256 / 256 / 256
        / 256 / 256 == b7);
}

/// A canonical record is exactly the encoding of the event it decodes to.
pub proof fn lemma_record_canonical(r: Seq<u8>)
    requires
        r.len() == 26,
        spec_decode_record(r) is Some,
    ensures
        spec_encode_record(spec_decode_record(r).unwrap()) =~= r,
{
    let te = spec_decode_record(r).unwrap();
    let e = te.event;
    lemma_le4_complete(r[2], r[3], r[4], r[5]);
    lemma_le4_complete(r[6], r[7], r[8], r[9]);
    lemma_le4_complete(r[10], r[11], r[12], r[13]);
    lemma_le4_complete(r[14], r[15], r[16], r[17]);
    lemma_le8_complete(r[18], r[19], r[20], r[21], r[22], r[23], r[24], r[25]);
    assert(rec_tag(e) == r[0]);
    assert(rec_flag(e) == r[1]);
    assert(rec_a(e) == dec32(r[2], r[3], r[4], r[5]));
    assert(rec_b(e) == dec32(r[6], r[7], r[8], r[9]));
    assert(rec_c(e) == dec32(r[10], r[11], r[12], r[13]));
    assert(rec_d(e) == dec32(r[14], r[15], r[16], r[17]));
    assert(te.at_nanos == dec64(r[18], r[19], r[20], r[21], r[22], r[23], r[24], r[25]));
}

/// Byte-for-byte round trip of storage: re-encoding a decoded script
/// reproduces the file's bytes exactly.
#[verifier::rlimit(60)]
pub proof fn lemma_codec_bytes_roundtrip(b: Seq<u8>)
    requires
        spec_decode(b) is Some,
    ensures
        spec_encode(spec_decode(b).unwrap()) =~= b,
    decreases b.len(),
{
    if b.len() == 0 {
        assert(spec_decode(b).unwrap() =~= Seq::<TimestampedEvent>::empty());
    } else {
        let s = spec_decode(b).unwrap();
        let te = spec_decode_record(b.take(26)).unwrap();
        let rest = spec_decode(b.skip(26)).unwrap();
        assert(s == seq![te] + rest);
        lemma_codec_bytes_roundtrip(b.skip(26));
        lemma_record_canonical(b.take(26));
        assert(s.len() > 0);
        lemma_encode_front(s);
        assert(s[0] == te);
        assert(s.drop_first() =~= rest);
        assert(spec_encode(s) == spec_encode_record(te) + spec_encode(rest));
        assert(spec_encode_record(te) =~= b.take(26));
        assert(spec_encode(rest) =~= b.skip(26));
        assert(b.take(26) + b.skip(26) =~= b);
    }
}

/// Shift of a signed scalar into storage range.
fn bias_exec(v: i32) -> (r: u32)
    ensures
        r == bias(v),
{
    ((v as i64) + 0x8000_0000i64) as u32
}

/// Inverse shift, back into signed range.
fn unbias_exec(u: u32) -> (r: i32)
    ensures
        r == unbias(u),
{
    ((u as i64) - 0x8000_0000i64) as i32
}

/// Appends the little-endian bytes of a 32-bit scalar.
fn push_u32_le(out: &mut Vec<u8>, v: u32)
    ensures
        final(out)@ == old(out)@ + le4(v),
{
    out.push((v % 256) as u8);
    out.push(((v / 256) % 256) as u8);
    out.push(((v / 256 / 256) % 256) as u8);
    out.push(((v / 256 / 256 / 256) % 256) as u8);
    proof {
        assert(out@ =~= old(out)@ + le4(v));
    }
}

/// Appends the little-endian bytes of a 64-bit scalar.
fn push_u64_le(out: &mut Vec<u8>, v: u64)
    ensures
        final(out)@ == old(out)@ + le8(v),
{
    out.push((v % 256) as u8);
    out.push(((v / 256) % 256) as u8);
    out.push(((v / 256 / 256) % 256) as u8);
    out.push(((v / 256 / 256 / 256) % 256) as u8);
    out.push(((v / 256 / 256 / 256 / 256) % 256) as u8);
    out.push(((v / 256 / 256 / 256 / 256 / 256) % 256) as u8);
    out.push(((v / 256 / 256 / 256 / 256 / 256 / 256) % 256) as u8);
    out.push(((v / 256 / 256 / 256 / 256 / 256 / 256 / 256) % 256) as u8);
    proof {
        assert(out@ =~= old(out)@ + le8(v));
    }
}

/// Appends the record of one event.
fn encode_record_into(out: &mut Vec<u8>, te: &TimestampedEvent)
    ensures
        final(out)@ == old(out)@ + spec_encode_record(*te),
{
    let (tag, flag, a, b, c, d): (u8, u8, u32, u32, u32, u32) = match te.event {
        InputEvent::KeyPress { key } => (0, 0, key, 0, 0, 0),
        InputEvent::KeyRelease { key } => (1, 0, key, 0, 0, 0),
        InputEvent::MouseButtonPress { button } => (2, 0, button, 0, 0, 0),
        InputEvent::MouseButtonRelease { button } => (3, 0, button, 0, 0, 0),
        InputEvent::MouseScroll { unit, x_milli, y_milli } => (
            4,
            match unit {
                ScrollUnit::Line => 0,
                ScrollUnit::Pixel => 1,
            },
            bias_exec(x_milli),
            bias_exec(y_milli),
            0,
            0,
        ),
        InputEvent::MouseMove { dx_milli, dy_milli, cursor } => match cursor {
            CursorTarget::Unchanged => (5, 0, bias_exec(dx_milli), bias_exec(dy_milli), 0, 0),
            CursorTarget::MoveTo { x_milli, y_milli } => (
                5,
                1,
                bias_exec(dx_milli),
                bias_exec(dy_milli),
                bias_exec(x_milli),
                bias_exec(y_milli),
            ),
        },
        InputEvent::ControllerButtonPress { pad, button } => (6, 0, pad, button, 0, 0),
        InputEvent::ControllerButtonRelease { pad, button } => (7, 0, pad, button, 0, 0),
        InputEvent::ControllerAxisChange { pad, axis, value_milli } => (
            8,
            0,
            pad,
            axis,
            bias_exec(value_milli),
            0,
        ),
        InputEvent::Quit => (9, 0, 0, 0, 0, 0),
    };
    assert(tag == rec_tag(te.event));
    assert(flag == rec_flag(te.event));
    assert(a == rec_a(te.event));
    assert(b == rec_b(te.event));
    assert(c == rec_c(te.event));
    assert(d == rec_d(te.event));
    out.push(tag);
    out.push(flag);
    push_u32_le(out, a);
    push_u32_le(out, b);
    push_u32_le(out, c);
    push_u32_le(out, d);
    push_u64_le(out, te.at_nanos);
    proof {
        assert(out@ =~= old(out)@ + spec_encode_record(*te));
    }
}

/// Serializes a script to bytes; the caller writes them to storage whole.
pub fn encode(script: &Script) -> (r: Vec<u8>)
    ensures
        r@ == spec_encode(script.events@),
{
    let mut out: Vec<u8> = Vec::new();
    let mut i: usize = 0;
    while i < script.events.len()
        invariant
            i <= script.events@.len(),
            out@ == spec_encode(script.events@.take(i as int)),
        decreases script.events@.len() - i,
    {
        encode_record_into(&mut out, &script.events[i]);
        proof {
            assert(script.events@.take(i + 1).drop_last() =~= script.events@.take(i as int));
            assert(script.events@.take(i + 1).last() == script.events@[i as int]);
        }
        i = i + 1;
    }
    proof {
        assert(script.events@.take(script.events@.len() as int) =~= script.events@);
    }
    out
}

/// Reads the 32-bit scalar stored at `i`.
fn read_u32_at(bytes: &[u8], i: usize) -> (r: u32)
    requires
        i + 4 <= bytes@.len(),
    ensures
        r == dec32(bytes@[i as int], bytes@[i + 1], bytes@[i + 2], bytes@[i + 3]),
{
    (bytes[i] as u32) + 256 * (bytes[i + 1] as u32) + 65536 * (bytes[i + 2] as u32) + 16777216
        * (bytes[i + 3] as u32)
}

/// Reads the 64-bit scalar stored at `i`.
fn read_u64_at(bytes: &[u8], i: usize) -> (r: u64)
    requires
        i + 8 <= bytes@.len(),
    ensures
        r == dec64(
            bytes@[i as int],
            bytes@[i + 1],
            bytes@[i + 2],
            bytes@[i + 3],
            bytes@[i + 4],
            bytes@[i + 5],
            bytes@[i + 6],
            bytes@[i + 7],
        ),
{
    (bytes[i] as u64) + 256 * (bytes[i + 1] as u64) + 65536 * (bytes[i + 2] as u64) + 16777216
        * (bytes[i + 3] as u64) + 4294967296 * (bytes[i + 4] as u64) + 1099511627776 * (bytes[i + 5]
        as u64) + 281474976710656 * (bytes[i + 6] as u64) + 72057594037927936 * (bytes[i + 7]
        as u64)
}

/// Decodes the record that starts at `i`.
fn decode_record_at(bytes: &[u8], i: usize) -> (r: Option<TimestampedEvent>)
    requires
        i + 26 <= bytes@.len(),
    ensures
        r == spec_decode_record(bytes@.subrange(i as int, i + 26)),
{
    let ghost chunk = bytes@.subrange(i as int, i + 26);
    let tag = bytes[i];
    let flag = bytes[i + 1];
    let a = read_u32_at(bytes, i + 2);
    let b = read_u32_at(bytes, i + 6);
    let c = read_u32_at(bytes, i + 10);
    let d = read_u32_at(bytes, i + 14);
    let t = read_u64_at(bytes, i + 18);
    assert(tag == chunk[0]);
    assert(flag == chunk[1]);
    assert(a == dec32(chunk[2], chunk[3], chunk[4], chunk[5]));
    assert(b == dec32(chunk[6], chunk[7], chunk[8], chunk[9]));
    assert(c == dec32(chunk[10], chunk[11], chunk[12], chunk[13]));
    assert(d == dec32(chunk[14], chunk[15], chunk[16], chunk[17]));
    assert(t == dec64(
        chunk[18],
        chunk[19],
        chunk[20],
        chunk[21],
        chunk[22],
        chunk[23],
        chunk[24],
        chunk[25],
    ));
    if tag == 0 && flag == 0 && b == 0 && c == 0 && d == 0 {
        Some(TimestampedEvent { at_nanos: t, event: InputEvent::KeyPress { key: a } })
    } else if tag == 1 && flag == 0 && b == 0 && c == 0 && d == 0 {
        Some(TimestampedEvent { at_nanos: t, event: InputEvent::KeyRelease { key: a } })
    } else if tag == 2 && flag == 0 && b == 0 && c == 0 && d == 0 {
        Some(TimestampedEvent { at_nanos: t, event: InputEvent::MouseButtonPress { button: a } })
    } else if tag == 3 && flag == 0 && b == 0 && c == 0 && d == 0 {
        Some(TimestampedEvent { at_nanos: t, event: InputEvent::MouseButtonRelease { button: a } })
    } else if tag == 4 {
        if flag <= 1 && c == 0 && d == 0 {
            Some(
                TimestampedEvent {
                    at_nanos: t,
                    event: InputEvent::MouseScroll {
                        unit: if flag == 0 {
                            ScrollUnit::Line
                        } else {
                            ScrollUnit::Pixel
                        },
                        x_milli: unbias_exec(a),
                        y_milli: unbias_exec(b),
                    },
                },
            )
        } else {
            None
        }
    } else if tag == 5 {
        if flag <= 1 && (flag == 1 || (c == 0 && d == 0)) {
            Some(
                TimestampedEvent {
                    at_nanos: t,
                    event: InputEvent::MouseMove {
                        dx_milli: unbias_exec(a),
                        dy_milli: unbias_exec(b),
                        cursor: if flag == 0 {
                            CursorTarget::Unchanged
                        } else {
                            CursorTarget::MoveTo {
                                x_milli: unbias_exec(c),
                                y_milli: unbias_exec(d),
                            }
                        },
                    },
                },
            )
        } else {
            None
        }
    } else if tag == 6 && flag == 0 && c == 0 && d == 0 {
        Some(
            TimestampedEvent {
                at_nanos: t,
                event: InputEvent::ControllerButtonPress { pad: a, button: b },
            },
        )
    } else if tag == 7 && flag == 0 && c == 0 && d == 0 {
        Some(
            TimestampedEvent {
                at_nanos: t,
                event: InputEvent::ControllerButtonRelease { pad: a, button: b },
            },
        )
    } else if tag == 8 && flag == 0 && d == 0 {
        Some(
            TimestampedEvent {
                at_nanos: t,
                event: InputEvent::ControllerAxisChange { pad: a, axis: b, value_milli: unbias_exec(
                    c,
                ) },
            },
        )
    } else if tag == 9 && flag == 0 && a == 0 && b == 0 && c == 0 && d == 0 {
        Some(TimestampedEvent { at_nanos: t, event: InputEvent::Quit })
    } else {
        None
    }
}

/// Deserializes a script from bytes, as loaded whole from storage; `None`
/// exactly when the bytes are not a well-formed sequence of records.
pub fn decode(bytes: &[u8]) -> (r: Option<Script>)
    ensures
        r is Some <==> spec_decode(bytes@) is Some,
        r matches Some(sc) ==> Some(sc.events@) == spec_decode(bytes@),
{
    let mut acc: Vec<TimestampedEvent> = Vec::new();
    let mut i: usize = 0;
    proof {
        assert(bytes@.skip(0) =~= bytes@);
        if spec_decode(bytes@) is Some {
            assert(acc@ + spec_decode(bytes@).unwrap() =~= spec_decode(bytes@).unwrap());
        }
    }
    while i < bytes.len()
        invariant
            i <= bytes@.len(),
            spec_decode(bytes@.skip(i as int)) is Some ==> spec_decode(bytes@) is Some
                && spec_decode(bytes@).unwrap() =~= acc@ + spec_decode(
                bytes@.skip(i as int),
            ).unwrap(),
            spec_decode(bytes@.skip(i as int)) is None ==> spec_decode(bytes@) is None,
        decreases bytes@.len() - i,
    {
        if bytes.len() - i < 26 {
            assert(spec_decode(bytes@.skip(i as int)) is None);
            return None;
        }
        let rec = decode_record_at(bytes, i);
        proof {
            assert(bytes@.skip(i as int).take(26) =~= bytes@.subrange(i as int, i + 26));
        }
        match rec {
            None => {
                assert(spec_decode(bytes@.skip(i as int)) is None);
                return None;
            },
            Some(te) => {
                let ghost acc_pre = acc@;
                acc.push(te);
                proof {
                    assert(bytes@.skip(i as int).skip(26) =~= bytes@.skip(i + 26));
                    if spec_decode(bytes@.skip(i + 26)) is Some {
                        let rest = spec_decode(bytes@.skip(i + 26)).unwrap();
                        assert(spec_decode(bytes@.skip(i as int)).unwrap() =~= seq![te] + rest);
                        assert(acc_pre + (seq![te] + rest) =~= acc@ + rest);
                    }
                }
                i = i + 26;
            },
        }
    }
    proof {
        assert(bytes@.skip(i as int) =~= Seq::<u8>::empty());
        assert(spec_decode(bytes@.skip(i as int)) == Some(Seq::<TimestampedEvent>::empty()));
        assert(acc@ + Seq::<TimestampedEvent>::empty() =~= acc@);
    }
    Some(Script { events: acc })
}

} // verus!
