//! Script recorder: turns per-tick input-device state into a script.
//!
//! Each tick the recorder diffs the current device state against the previous
//! tick's and appends one event per transition: key and button edges as
//! press/release, axis values as discrete change events once they move beyond
//! a dead zone of 10 thousandths against a per-channel cache, and scroll and
//! cursor deltas as they arrive. All events of one tick carry the same
//! timestamp, `now - anchor`.

use vstd::prelude::*;

use crate::anchor::ClockAnchor;
use crate::script::{CursorTarget, InputEvent, Script, ScrollUnit, TimestampedEvent};

verus! {

/// One controller button, identified by its pad and button ids.
#[derive(Clone, Copy, Debug, PartialEq, Eq, Structural)]
pub struct PadButton {
    pub pad: u32,
    pub button: u32,
}

/// The position of one controller axis, in thousandths of full deflection.
#[derive(Clone, Copy, Debug, PartialEq, Eq, Structural)]
pub struct AxisReading {
    pub pad: u32,
    pub axis: u32,
    pub value_milli: i32,
}

/// One mouse-wheel delta observed during a tick.
#[derive(Clone, Copy, Debug, PartialEq, Eq, Structural)]
pub struct ScrollDelta {
    pub unit: ScrollUnit,
    pub x_milli: i32,
    pub y_milli: i32,
}

/// One mouse-motion delta observed during a tick.
#[derive(Clone, Copy, Debug, PartialEq, Eq, Structural)]
pub struct MoveDelta {
    pub dx_milli: i32,
    pub dy_milli: i32,
    pub cursor: CursorTarget,
}

/// Everything the recorder reads from the input devices on one tick.
pub struct InputSnapshot {
    /// Keys currently held down.
    pub keys_down: Vec<u32>,
    /// Mouse buttons currently held down.
    pub mouse_down: Vec<u32>,
    /// Controller buttons currently held down.
    pub pad_down: Vec<PadButton>,
    /// Current positions of all controller axes.
    pub axes: Vec<AxisReading>,
    /// Wheel deltas that arrived this tick, in order.
    pub scrolls: Vec<ScrollDelta>,
    /// Motion deltas that arrived this tick, in order.
    pub moves: Vec<MoveDelta>,
}

/// Press events for the elements of `cur` missing from `prev`, in `cur`
/// order, all at time `t`; the constructor is chosen by `KeyPress` here and
/// by the sibling functions below for the other channels.
pub open spec fn key_presses(cur: Seq<u32>, prev: Seq<u32>, t: u64) -> Seq<TimestampedEvent>
    decreases cur.len(),
{
    if cur.len() == 0 {
        Seq::empty()
    } else {
        key_presses(cur.drop_last(), prev, t) + (if !prev.contains(cur.last()) {
            seq![TimestampedEvent { at_nanos: t, event: InputEvent::KeyPress { key: cur.last() } }]
        } else {
            Seq::empty()
        })
    }
}

/// Release events for the elements of `prev` missing from `cur`.
pub open spec fn key_releases(prev: Seq<u32>, cur: Seq<u32>, t: u64) -> Seq<TimestampedEvent>
    decreases prev.len(),
{
    if prev.len() == 0 {
        Seq::empty()
    } else {
        key_releases(prev.drop_last(), cur, t) + (if !cur.contains(prev.last()) {
            seq![
                TimestampedEvent { at_nanos: t, event: InputEvent::KeyRelease { key: prev.last() } },
            ]
        } else {
            Seq::empty()
        })
    }
}

pub open spec fn mouse_presses(cur: Seq<u32>, prev: Seq<u32>, t: u64) -> Seq<TimestampedEvent>
    decreases cur.len(),
{
    if cur.len() == 0 {
        Seq::empty()
    } else {
        mouse_presses(cur.drop_last(), prev, t) + (if !prev.contains(cur.last()) {
            seq![
                TimestampedEvent {
                    at_nanos: t,
                    event: InputEvent::MouseButtonPress { button: cur.last() },
                },
            ]
        } else {
            Seq::empty()
        })
    }
}

pub open spec fn mouse_releases(prev: Seq<u32>, cur: Seq<u32>, t: u64) -> Seq<TimestampedEvent>
    decreases prev.len(),
{
    if prev.len() == 0 {
        Seq::empty()
    } else {
        mouse_releases(prev.drop_last(), cur, t) + (if !cur.contains(prev.last()) {
            seq![
                TimestampedEvent {
                    at_nanos: t,
                    event: InputEvent::MouseButtonRelease { button: prev.last() },
                },
            ]
        } else {
            Seq::empty()
        })
    }
}

pub open spec fn pad_presses(cur: Seq<PadButton>, prev: Seq<PadButton>, t: u64) -> Seq<
    TimestampedEvent,
>
    decreases cur.len(),
{
    if cur.len() == 0 {
        Seq::empty()
    } else {
        pad_presses(cur.drop_last(), prev, t) + (if !prev.contains(cur.last()) {
            seq![
                TimestampedEvent {
                    at_nanos: t,
                    event: InputEvent::ControllerButtonPress {
                        pad: cur.last().pad,
                        button: cur.last().button,
                    },
                },
            ]
        } else {
            Seq::empty()
        })
    }
}

pub open spec fn pad_releases(prev: Seq<PadButton>, cur: Seq<PadButton>, t: u64) -> Seq<
    TimestampedEvent,
>
    decreases prev.len(),
{
    if prev.len() == 0 {
        Seq::empty()
    } else {
        pad_releases(prev.drop_last(), cur, t) + (if !cur.contains(prev.last()) {
            seq![
                TimestampedEvent {
                    at_nanos: t,
                    event: InputEvent::ControllerButtonRelease {
                        pad: prev.last().pad,
                        button: prev.last().button,
                    },
                },
            ]
        } else {
            Seq::empty()
        })
    }
}

/// The cached value of one axis channel: the first entry for the pad/axis
/// pair, scanning from the front.
pub open spec fn cache_lookup(cache: Seq<AxisReading>, pad: u32, axis: u32) -> Option<i32>
    decreases cache.len(),
{
    if cache.len() == 0 {
        None
    } else if cache[0].pad == pad && cache[0].axis == axis {
        Some(cache[0].value_milli)
    } else {
        cache_lookup(cache.drop_first(), pad, axis)
    }
}

/// The cache after recording a value: the first matching entry updated in
/// place, or a new entry appended.
pub open spec fn cache_store(cache: Seq<AxisReading>, r: AxisReading) -> Seq<AxisReading>
    decreases cache.len(),
{
    if cache.len() == 0 {
        seq![r]
    } else if cache[0].pad == r.pad && cache[0].axis == r.axis {
        seq![r] + cache.drop_first()
    } else {
        seq![cache[0]] + cache_store(cache.drop_first(), r)
    }
}

/// A change worth recording: more than 10 thousandths away from the cached
/// value (the 0.01 dead zone of the input surface).
pub open spec fn beyond_dead_zone(value: i32, cached: i32) -> bool {
    value - cached > 10 || cached - value > 10
}

/// Whether an axis reading is recorded against a given cache: always when
/// the channel is unseen, otherwise only beyond the dead zone.
pub open spec fn axis_records(cache: Seq<AxisReading>, r: AxisReading) -> bool {
    match cache_lookup(cache, r.pad, r.axis) {
        None => true,
        Some(c) => beyond_dead_zone(r.value_milli, c),
    }
}

/// The axis-change events of one tick and the cache that results: readings
/// processed in order, each recorded one updating the cache as it goes.
pub open spec fn axis_scan(cur: Seq<AxisReading>, cache: Seq<AxisReading>, t: u64) -> (Seq<
    TimestampedEvent,
>, Seq<AxisReading>)
    decreases cur.len(),
{
    if cur.len() == 0 {
        (Seq::empty(), cache)
    } else {
        let r = cur[0];
        if axis_records(cache, r) {
            let rest = axis_scan(cur.drop_first(), cache_store(cache, r), t);
            (
                seq![
                    TimestampedEvent {
                        at_nanos: t,
                        event: InputEvent::ControllerAxisChange {
                            pad: r.pad,
                            axis: r.axis,
                            value_milli: r.value_milli,
                        },
                    },
                ] + rest.0,
                rest.1,
            )
        } else {
            axis_scan(cur.drop_first(), cache, t)
        }
    }
}

/// The scroll events of one tick, one per delta, in order.
pub open spec fn scroll_events(s: Seq<ScrollDelta>, t: u64) -> Seq<TimestampedEvent> {
    s.map_values(
        |d: ScrollDelta|
            TimestampedEvent {
                at_nanos: t,
                event: InputEvent::MouseScroll { unit: d.unit, x_milli: d.x_milli, y_milli: d.y_milli },
            },
    )
}

/// The motion events of one tick, one per delta, in order.
pub open spec fn move_events(s: Seq<MoveDelta>, t: u64) -> Seq<TimestampedEvent> {
    s.map_values(
        |d: MoveDelta|
            TimestampedEvent {
                at_nanos: t,
                event: InputEvent::MouseMove {
                    dx_milli: d.dx_milli,
                    dy_milli: d.dy_milli,
                    cursor: d.cursor,
                },
            },
    )
}

/// Everything one recorder tick appends, in the channel order keys, mouse
/// buttons, controller buttons, axes, wheel, motion.
pub open spec fn tick_events(snap: &InputSnapshot, prev_keys: Seq<u32>, prev_mouse: Seq<u32>,
    prev_pad: Seq<PadButton>, cache: Seq<AxisReading>, t: u64) -> Seq<TimestampedEvent> {
    key_presses(snap.keys_down@, prev_keys, t) + key_releases(prev_keys, snap.keys_down@, t)
        + mouse_presses(snap.mouse_down@, prev_mouse, t) + mouse_releases(
        prev_mouse,
        snap.mouse_down@,
        t,
    ) + pad_presses(snap.pad_down@, prev_pad, t) + pad_releases(prev_pad, snap.pad_down@, t)
        + axis_scan(snap.axes@, cache, t).0 + scroll_events(snap.scrolls@, t) + move_events(
        snap.moves@,
        t,
    )
}

/// Records a script from per-tick input snapshots.
pub struct Recorder {
    /// The script grown so far.
    pub script: Script,
    /// Keys held down on the previous recorded tick.
    pub prev_keys: Vec<u32>,
    /// Mouse buttons held down on the previous recorded tick.
    pub prev_mouse: Vec<u32>,
    /// Controller buttons held down on the previous recorded tick.
    pub prev_pad: Vec<PadButton>,
    /// Last recorded value of each axis channel.
    pub axis_cache: Vec<AxisReading>,
    /// Relative time of the last recorded tick.
    pub last_rel: u64,
}

impl Recorder {
    /// Internal consistency: the script is monotone and nothing in it is
    /// newer than the last recorded tick.
    pub open spec fn wf(&self) -> bool {
        &&& self.script.wf()
        &&& self.script.events@.len() > 0 ==> self.script.events@.last().at_nanos <= self.last_rel
    }

    /// A recorder at the start of a run: empty script, all channels at rest.
    pub fn new() -> (r: Recorder)
        ensures
            r.wf(),
            r.script.events@ == Seq::<TimestampedEvent>::empty(),
            r.prev_keys@ == Seq::<u32>::empty(),
            r.prev_mouse@ == Seq::<u32>::empty(),
            r.prev_pad@ == Seq::<PadButton>::empty(),
            r.axis_cache@ == Seq::<AxisReading>::empty(),
            r.last_rel == 0,
    {
        Recorder {
            script: Script::new(),
            prev_keys: Vec::new(),
            prev_mouse: Vec::new(),
            prev_pad: Vec::new(),
            axis_cache: Vec::new(),
            last_rel: 0,
        }
    }

    /// One recording tick at absolute time `now_nanos`.
    ///
    /// With no anchor set this mutates nothing. With an anchor at `a`, it
    /// appends exactly the edge and change events of this tick, all at the
    /// relative time `now_nanos - a`, and remembers the current device state
    /// for the next diff.
    pub fn tick(&mut self, anchor: &ClockAnchor, now_nanos: u64, snap: &InputSnapshot)
        requires
            old(self).wf(),
            anchor.anchor matches Some(a) ==> a <= now_nanos && now_nanos - a >= old(self).last_rel,
        ensures
            final(self).wf(),
            anchor.anchor is None ==> *final(self) == *old(self),
            anchor.anchor matches Some(a) ==> {
                let t = (now_nanos - a) as u64;
                &&& final(self).script.events@ == old(self).script.events@ + tick_events(
                    snap,
                    old(self).prev_keys@,
                    old(self).prev_mouse@,
                    old(self).prev_pad@,
                    old(self).axis_cache@,
                    t,
                )
                &&& final(self).prev_keys@ == snap.keys_down@
                &&& final(self).prev_mouse@ == snap.mouse_down@
                &&& final(self).prev_pad@ == snap.pad_down@
                &&& final(self).axis_cache@ == axis_scan(snap.axes@, old(self).axis_cache@, t).1
                &&& final(self).last_rel == t
            },
    {
        let a = match anchor.get() {
            Some(a) => a,
            None => {
                return ;
            },
        };
        let t: u64 = now_nanos - a;
        let ghost pre = self.script.events@;
        let ghost keys0 = self.prev_keys@;
        let ghost mouse0 = self.prev_mouse@;
        let ghost pad0 = self.prev_pad@;
        let ghost cache0 = self.axis_cache@;
        record_key_presses(&mut self.script, &snap.keys_down, &self.prev_keys, t);
        record_key_releases(&mut self.script, &self.prev_keys, &snap.keys_down, t);
        record_mouse_presses(&mut self.script, &snap.mouse_down, &self.prev_mouse, t);
        record_mouse_releases(&mut self.script, &self.prev_mouse, &snap.mouse_down, t);
        record_pad_presses(&mut self.script, &snap.pad_down, &self.prev_pad, t);
        record_pad_releases(&mut self.script, &self.prev_pad, &snap.pad_down, t);
        record_axis_changes(&mut self.script, &mut self.axis_cache, &snap.axes, t);
        record_scrolls(&mut self.script, &snap.scrolls, t);
        record_moves(&mut self.script, &snap.moves, t);
        self.prev_keys = clone_u32_vec(&snap.keys_down);
        self.prev_mouse = clone_u32_vec(&snap.mouse_down);
        self.prev_pad = clone_pad_vec(&snap.pad_down);
        self.last_rel = t;
        proof {
            assert(self.script.events@ =~= pre + tick_events(snap, keys0, mouse0, pad0, cache0, t));
        }
    }

    /// Finalizes the recording: appends the terminal `Quit` at the current
    /// relative time and hands back the encoded script for the caller to
    /// write to storage whole.
    pub fn finalize(&mut self, anchor: &ClockAnchor, now_nanos: u64) -> (r: Vec<u8>)
        requires
            old(self).wf(),
            anchor.anchor matches Some(a) ==> a <= now_nanos && now_nanos - a >= old(self).last_rel,
            anchor.anchor is Some,
        ensures
            final(self).wf(),
            anchor.anchor matches Some(a) ==> {
                let t = (now_nanos - a) as u64;
                &&& final(self).script.events@ == old(self).script.events@.push(
                    TimestampedEvent { at_nanos: t, event: InputEvent::Quit },
                )
                &&& r@ == crate::codec::spec_encode(final(self).script.events@)
                &&& final(self).last_rel == t
            },
    {
        let a = match anchor.get() {
            Some(a) => a,
            None => {
                unreached()
            },
        };
        let t: u64 = now_nanos - a;
        self.script.push(t, InputEvent::Quit);
        self.last_rel = t;
        crate::codec::encode(&self.script)
    }
}

/// How long a finished recording keeps running before the script is saved,
/// so that the closing inputs still land in it.
pub const SAVE_DELAY_NANOS: u64 = 200_000_000;

/// Completion detection of a recording run: once the verdict turns into a
/// pass, or an external quit signal arrives, a short grace delay runs and
/// then the save is requested, exactly once.
pub enum SavePhase {
    /// Recording; nothing finished yet.
    Watching,
    /// Finish observed; waiting out the grace delay.
    Delaying { deadline: u64 },
    /// The save request went out; terminal.
    SaveRequested,
}

impl SavePhase {
    /// The phase at the start of a recording run.
    pub fn new() -> (r: SavePhase)
        ensures
            r is Watching,
    {
        SavePhase::Watching
    }

    /// One tick of completion detection. `passed` is whether the verdict
    /// reports a pass; `quit_signal` is an external request to finish. The
    /// result asks the caller to finalize and save the script, once.
    pub fn step(&mut self, now_nanos: u64, passed: bool, quit_signal: bool) -> (save_now: bool)
        requires
            *old(self) is Watching ==> now_nanos + SAVE_DELAY_NANOS <= u64::MAX,
        ensures
            *old(self) is Watching && (passed || quit_signal) ==> *final(self)
                == (SavePhase::Delaying { deadline: (now_nanos + SAVE_DELAY_NANOS) as u64 })
                && !save_now,
            *old(self) is Watching && !(passed || quit_signal) ==> *final(self) == *old(self)
                && !save_now,
            *old(self) matches SavePhase::Delaying { deadline } ==> {
                &&& now_nanos >= deadline ==> *final(self) is SaveRequested && save_now
                &&& now_nanos < deadline ==> *final(self) == *old(self) && !save_now
            },
            *old(self) is SaveRequested ==> *final(self) == *old(self) && !save_now,
    {
        match *self {
            SavePhase::Watching => {
                if passed || quit_signal {
                    *self = SavePhase::Delaying { deadline: now_nanos + SAVE_DELAY_NANOS };
                }
                false
            },
            SavePhase::Delaying { deadline } => {
                if now_nanos >= deadline {
                    *self = SavePhase::SaveRequested;
                    true
                } else {
                    false
                }
            },
            SavePhase::SaveRequested => false,
        }
    }
}

/// Copies a vector of key or button ids.
fn clone_u32_vec(v: &Vec<u32>) -> (r: Vec<u32>)
    ensures
        r@ == v@,
{
    let mut out: Vec<u32> = Vec::new();
    let mut i: usize = 0;
    while i < v.len()
        invariant
            i <= v@.len(),
            out@ == v@.take(i as int),
        decreases v@.len() - i,
    {
        out.push(v[i]);
        proof {
            assert(v@.take(i + 1) =~= v@.take(i as int).push(v@[i as int]));
        }
        i = i + 1;
    }
    proof {
        assert(v@.take(v@.len() as int) =~= v@);
    }
    out
}

/// Copies a vector of controller buttons.
fn clone_pad_vec(v: &Vec<PadButton>) -> (r: Vec<PadButton>)
    ensures
        r@ == v@,
{
    let mut out: Vec<PadButton> = Vec::new();
    let mut i: usize = 0;
    while i < v.len()
        invariant
            i <= v@.len(),
            out@ == v@.take(i as int),
        decreases v@.len() - i,
    {
        out.push(v[i]);
        proof {
            assert(v@.take(i + 1) =~= v@.take(i as int).push(v@[i as int]));
        }
        i = i + 1;
    }
    proof {
        assert(v@.take(v@.len() as int) =~= v@);
    }
    out
}

/// Membership scan for a vector of controller buttons.
fn contains_pad(v: &Vec<PadButton>, x: PadButton) -> (r: bool)
    ensures
        r == v@.contains(x),
{
    let mut i: usize = 0;
    while i < v.len()
        invariant
            i <= v@.len(),
            forall|k: int| 0 <= k < i ==> v@[k] != x,
        decreases v@.len() - i,
    {
        if v[i] == x {
            return true;
        }
        i = i + 1;
    }
    false
}

fn record_key_presses(script: &mut Script, cur: &Vec<u32>, prev: &Vec<u32>, t: u64)
    requires
        old(script).wf(),
        old(script).events@.len() > 0 ==> old(script).events@.last().at_nanos <= t,
    ensures
        final(script).wf(),
        final(script).events@ == old(script).events@ + key_presses(cur@, prev@, t),
        final(script).events@.len() > 0 ==> final(script).events@.last().at_nanos <= t,
{
    let ghost pre = script.events@;
    let mut i: usize = 0;
    while i < cur.len()
        invariant
            i <= cur@.len(),
            script.wf(),
            script.events@ == pre + key_presses(cur@.take(i as int), prev@, t),
            script.events@.len() > 0 ==> script.events@.last().at_nanos <= t,
        decreases cur@.len() - i,
    {
        proof {
            assert(cur@.take(i + 1).drop_last() =~= cur@.take(i as int));
            assert(cur@.take(i + 1).last() == cur@[i as int]);
        }
        if !crate::script::contains_u32(prev, cur[i]) {
            script.push(t, InputEvent::KeyPress { key: cur[i] });
        }
        proof {
            assert(script.events@ =~= pre + key_presses(cur@.take(i + 1), prev@, t));
        }
        i = i + 1;
    }
    proof {
        assert(cur@.take(cur@.len() as int) =~= cur@);
    }
}

fn record_key_releases(script: &mut Script, prev: &Vec<u32>, cur: &Vec<u32>, t: u64)
    requires
        old(script).wf(),
        old(script).events@.len() > 0 ==> old(script).events@.last().at_nanos <= t,
    ensures
        final(script).wf(),
        final(script).events@ == old(script).events@ + key_releases(prev@, cur@, t),
        final(script).events@.len() > 0 ==> final(script).events@.last().at_nanos <= t,
{
    let ghost pre = script.events@;
    let mut i: usize = 0;
    while i < prev.len()
        invariant
            i <= prev@.len(),
            script.wf(),
            script.events@ == pre + key_releases(prev@.take(i as int), cur@, t),
            script.events@.len() > 0 ==> script.events@.last().at_nanos <= t,
        decreases prev@.len() - i,
    {
        proof {
            assert(prev@.take(i + 1).drop_last() =~= prev@.take(i as int));
            assert(prev@.take(i + 1).last() == prev@[i as int]);
        }
        if !crate::script::contains_u32(cur, prev[i]) {
            script.push(t, InputEvent::KeyRelease { key: prev[i] });
        }
        proof {
            assert(script.events@ =~= pre + key_releases(prev@.take(i + 1), cur@, t));
        }
        i = i + 1;
    }
    proof {
        assert(prev@.take(prev@.len() as int) =~= prev@);
    }
}

fn record_mouse_presses(script: &mut Script, cur: &Vec<u32>, prev: &Vec<u32>, t: u64)
    requires
        old(script).wf(),
        old(script).events@.len() > 0 ==> old(script).events@.last().at_nanos <= t,
    ensures
        final(script).wf(),
        final(script).events@ == old(script).events@ + mouse_presses(cur@, prev@, t),
        final(script).events@.len() > 0 ==> final(script).events@.last().at_nanos <= t,
{
    let ghost pre = script.events@;
    let mut i: usize = 0;
    while i < cur.len()
        invariant
            i <= cur@.len(),
            script.wf(),
            script.events@ == pre + mouse_presses(cur@.take(i as int), prev@, t),
            script.events@.len() > 0 ==> script.events@.last().at_nanos <= t,
        decreases cur@.len() - i,
    {
        proof {
            assert(cur@.take(i + 1).drop_last() =~= cur@.take(i as int));
            assert(cur@.take(i + 1).last() == cur@[i as int]);
        }
        if !crate::script::contains_u32(prev, cur[i]) {
            script.push(t, InputEvent::MouseButtonPress { button: cur[i] });
        }
        proof {
            assert(script.events@ =~= pre + mouse_presses(cur@.take(i + 1), prev@, t));
        }
        i = i + 1;
    }
    proof {
        assert(cur@.take(cur@.len() as int) =~= cur@);
    }
}

fn record_mouse_releases(script: &mut Script, prev: &Vec<u32>, cur: &Vec<u32>, t: u64)
    requires
        old(script).wf(),
        old(script).events@.len() > 0 ==> old(script).events@.last().at_nanos <= t,
    ensures
        final(script).wf(),
        final(script).events@ == old(script).events@ + mouse_releases(prev@, cur@, t),
        final(script).events@.len() > 0 ==> final(script).events@.last().at_nanos <= t,
{
    let ghost pre = script.events@;
    let mut i: usize = 0;
    while i < prev.len()
        invariant
            i <= prev@.len(),
            script.wf(),
            script.events@ == pre + mouse_releases(prev@.take(i as int), cur@, t),
            script.events@.len() > 0 ==> script.events@.last().at_nanos <= t,
        decreases prev@.len() - i,
    {
        proof {
            assert(prev@.take(i + 1).drop_last() =~= prev@.take(i as int));
            assert(prev@.take(i + 1).last() == prev@[i as int]);
        }
        if !crate::script::contains_u32(cur, prev[i]) {
            script.push(t, InputEvent::MouseButtonRelease { button: prev[i] });
        }
        proof {
            assert(script.events@ =~= pre + mouse_releases(prev@.take(i + 1), cur@, t));
        }
        i = i + 1;
    }
    proof {
        assert(prev@.take(prev@.len() as int) =~= prev@);
    }
}

fn record_pad_presses(script: &mut Script, cur: &Vec<PadButton>, prev: &Vec<PadButton>, t: u64)
    requires
        old(script).wf(),
        old(script).events@.len() > 0 ==> old(script).events@.last().at_nanos <= t,
    ensures
        final(script).wf(),
        final(script).events@ == old(script).events@ + pad_presses(cur@, prev@, t),
        final(script).events@.len() > 0 ==> final(script).events@.last().at_nanos <= t,
{
    let ghost pre = script.events@;
    let mut i: usize = 0;
    while i < cur.len()
        invariant
            i <= cur@.len(),
            script.wf(),
            script.events@ == pre + pad_presses(cur@.take(i as int), prev@, t),
            script.events@.len() > 0 ==> script.events@.last().at_nanos <= t,
        decreases cur@.len() - i,
    {
        proof {
            assert(cur@.take(i + 1).drop_last() =~= cur@.take(i as int));
            assert(cur@.take(i + 1).last() == cur@[i as int]);
        }
        if !contains_pad(prev, cur[i]) {
            script.push(
                t,
                InputEvent::ControllerButtonPress { pad: cur[i].pad, button: cur[i].button },
            );
        }
        proof {
            assert(script.events@ =~= pre + pad_presses(cur@.take(i + 1), prev@, t));
        }
        i = i + 1;
    }
    proof {
        assert(cur@.take(cur@.len() as int) =~= cur@);
    }
}

fn record_pad_releases(script: &mut Script, prev: &Vec<PadButton>, cur: &Vec<PadButton>, t: u64)
    requires
        old(script).wf(),
        old(script).events@.len() > 0 ==> old(script).events@.last().at_nanos <= t,
    ensures
        final(script).wf(),
        final(script).events@ == old(script).events@ + pad_releases(prev@, cur@, t),
        final(script).events@.len() > 0 ==> final(script).events@.last().at_nanos <= t,
{
    let ghost pre = script.events@;
    let mut i: usize = 0;
    while i < prev.len()
        invariant
            i <= prev@.len(),
            script.wf(),
            script.events@ == pre + pad_releases(prev@.take(i as int), cur@, t),
            script.events@.len() > 0 ==> script.events@.last().at_nanos <= t,
        decreases prev@.len() - i,
    {
        proof {
            assert(prev@.take(i + 1).drop_last() =~= prev@.take(i as int));
            assert(prev@.take(i + 1).last() == prev@[i as int]);
        }
        if !contains_pad(cur, prev[i]) {
            script.push(
                t,
                InputEvent::ControllerButtonRelease { pad: prev[i].pad, button: prev[i].button },
            );
        }
        proof {
            assert(script.events@ =~= pre + pad_releases(prev@.take(i + 1), cur@, t));
        }
        i = i + 1;
    }
    proof {
        assert(prev@.take(prev@.len() as int) =~= prev@);
    }
}

/// Looks up the cached value of one axis channel.
fn cache_find(cache: &Vec<AxisReading>, pad: u32, axis: u32) -> (r: Option<i32>)
    ensures
        r == cache_lookup(cache@, pad, axis),
{
    let mut i: usize = 0;
    proof {
        assert(cache@.skip(0) =~= cache@);
    }
    while i < cache.len()
        invariant
            i <= cache@.len(),
            cache_lookup(cache@, pad, axis) == cache_lookup(cache@.skip(i as int), pad, axis),
        decreases cache@.len() - i,
    {
        proof {
            assert(cache@.skip(i as int)[0] == cache@[i as int]);
            assert(cache@.skip(i as int).drop_first() =~= cache@.skip(i + 1));
        }
        if cache[i].pad == pad && cache[i].axis == axis {
            return Some(cache[i].value_milli);
        }
        i = i + 1;
    }
    proof {
        assert(cache@.skip(cache@.len() as int) =~= Seq::<AxisReading>::empty());
    }
    None
}

/// Writes a recorded value into the cache, updating the first matching
/// entry or appending a new one.
fn cache_put(cache: &mut Vec<AxisReading>, r: AxisReading)
    ensures
        final(cache)@ == cache_store(old(cache)@, r),
{
    let mut i: usize = 0;
    proof {
        assert(cache@.skip(0) =~= cache@);
        assert(cache@.take(0) =~= Seq::<AxisReading>::empty());
    }
    while i < cache.len()
        invariant
            i <= cache@.len(),
            cache@ == old(cache)@,
            forall|k: int| 0 <= k < i ==> !(cache@[k].pad == r.pad && cache@[k].axis == r.axis),
            cache_store(cache@, r) =~= cache@.take(i as int) + cache_store(
                cache@.skip(i as int),
                r,
            ),
        decreases cache@.len() - i,
    {
        proof {
            assert(cache@.skip(i as int)[0] == cache@[i as int]);
            assert(cache@.skip(i as int).drop_first() =~= cache@.skip(i + 1));
        }
        if cache[i].pad == r.pad && cache[i].axis == r.axis {
            cache.set(i, r);
            proof {
                assert(cache_store(old(cache)@.skip(i as int), r) =~= seq![r] + old(cache)@.skip(
                    i + 1,
                ));
                assert(cache@ =~= old(cache)@.take(i as int) + (seq![r] + old(cache)@.skip(i + 1)));
            }
            return ;
        }
        proof {
            assert(cache@.take(i + 1) =~= cache@.take(i as int).push(cache@[i as int]));
            assert(cache@.take(i as int) + (seq![cache@[i as int]] + cache_store(
                cache@.skip(i + 1),
                r,
            )) =~= cache@.take(i + 1) + cache_store(cache@.skip(i + 1), r));
        }
        i = i + 1;
    }
    proof {
        assert(cache@.skip(cache@.len() as int) =~= Seq::<AxisReading>::empty());
        assert(cache_store(cache@.skip(cache@.len() as int), r) =~= seq![r]);
    }
    cache.push(r);
    proof {
        assert(cache@ =~= old(cache)@.take(old(cache)@.len() as int) + seq![r]);
        assert(old(cache)@.take(old(cache)@.len() as int) =~= old(cache)@);
    }
}

/// Whether a reading lies beyond the dead zone of its cached value.
fn beyond_dead_zone_exec(value: i32, cached: i32) -> (r: bool)
    ensures
        r == beyond_dead_zone(value, cached),
{
    let d: i64 = (value as i64) - (cached as i64);
    d > 10 || d < -10
}

fn record_axis_changes(script: &mut Script, cache: &mut Vec<AxisReading>, cur: &Vec<AxisReading>,
    t: u64)
    requires
        old(script).wf(),
        old(script).events@.len() > 0 ==> old(script).events@.last().at_nanos <= t,
    ensures
        final(script).wf(),
        final(script).events@ == old(script).events@ + axis_scan(cur@, old(cache)@, t).0,
        final(cache)@ == axis_scan(cur@, old(cache)@, t).1,
        final(script).events@.len() > 0 ==> final(script).events@.last().at_nanos <= t,
{
    let ghost pre = script.events@;
    let ghost cache0 = old(cache)@;
    let mut i: usize = 0;
    proof {
        assert(cur@.skip(0) =~= cur@);
        assert(script.events@.skip(pre.len() as int) =~= Seq::<TimestampedEvent>::empty());
        assert(script.events@.take(pre.len() as int) =~= pre);
    }
    while i < cur.len()
        invariant
            i <= cur@.len(),
            script.wf(),
            script.events@.len() > 0 ==> script.events@.last().at_nanos <= t,
            axis_scan(cur@, cache0, t).0 =~= script.events@.skip(pre.len() as int) + axis_scan(
                cur@.skip(i as int),
                cache@,
                t,
            ).0,
            axis_scan(cur@, cache0, t).1 == axis_scan(cur@.skip(i as int), cache@, t).1,
            script.events@.take(pre.len() as int) == pre,
            script.events@.len() >= pre.len(),
        decreases cur@.len() - i,
    {
        let r = cur[i];
        proof {
            assert(cur@.skip(i as int)[0] == cur@[i as int]);
            assert(cur@.skip(i as int).drop_first() =~= cur@.skip(i + 1));
        }
        let recorded = match cache_find(cache, r.pad, r.axis) {
            None => true,
            Some(c) => beyond_dead_zone_exec(r.value_milli, c),
        };
        if recorded {
            let ghost evs0 = script.events@;
            script.push(
                t,
                InputEvent::ControllerAxisChange {
                    pad: r.pad,
                    axis: r.axis,
                    value_milli: r.value_milli,
                },
            );
            cache_put(cache, r);
            proof {
                assert(script.events@.skip(pre.len() as int) =~= evs0.skip(pre.len() as int)
                    + seq![
                    TimestampedEvent {
                        at_nanos: t,
                        event: InputEvent::ControllerAxisChange {
                            pad: r.pad,
                            axis: r.axis,
                            value_milli: r.value_milli,
                        },
                    },
                ]);
                assert(script.events@.take(pre.len() as int) =~= pre);
                assert(axis_scan(cur@, cache0, t).0 =~= script.events@.skip(pre.len() as int)
                    + axis_scan(cur@.skip(i + 1), cache@, t).0);
            }
        }
        i = i + 1;
    }
    proof {
        assert(cur@.skip(cur@.len() as int) =~= Seq::<AxisReading>::empty());
        assert(script.events@ =~= pre + script.events@.skip(pre.len() as int));
    }
}

fn record_scrolls(script: &mut Script, list: &Vec<ScrollDelta>, t: u64)
    requires
        old(script).wf(),
        old(script).events@.len() > 0 ==> old(script).events@.last().at_nanos <= t,
    ensures
        final(script).wf(),
        final(script).events@ == old(script).events@ + scroll_events(list@, t),
        final(script).events@.len() > 0 ==> final(script).events@.last().at_nanos <= t,
{
    let ghost pre = script.events@;
    let mut i: usize = 0;
    while i < list.len()
        invariant
            i <= list@.len(),
            script.wf(),
            script.events@ == pre + scroll_events(list@.take(i as int), t),
            script.events@.len() > 0 ==> script.events@.last().at_nanos <= t,
        decreases list@.len() - i,
    {
        let d = list[i];
        script.push(
            t,
            InputEvent::MouseScroll { unit: d.unit, x_milli: d.x_milli, y_milli: d.y_milli },
        );
        proof {
            assert(list@.take(i + 1) =~= list@.take(i as int).push(list@[i as int]));
            assert(scroll_events(list@.take(i + 1), t) =~= scroll_events(
                list@.take(i as int),
                t,
            ).push(
                TimestampedEvent {
                    at_nanos: t,
                    event: InputEvent::MouseScroll {
                        unit: d.unit,
                        x_milli: d.x_milli,
                        y_milli: d.y_milli,
                    },
                },
            ));
            assert(script.events@ =~= pre + scroll_events(list@.take(i + 1), t));
        }
        i = i + 1;
    }
    proof {
        assert(list@.take(list@.len() as int) =~= list@);
    }
}

fn record_moves(script: &mut Script, list: &Vec<MoveDelta>, t: u64)
    requires
        old(script).wf(),
        old(script).events@.len() > 0 ==> old(script).events@.last().at_nanos <= t,
    ensures
        final(script).wf(),
        final(script).events@ == old(script).events@ + move_events(list@, t),
        final(script).events@.len() > 0 ==> final(script).events@.last().at_nanos <= t,
{
    let ghost pre = script.events@;
    let mut i: usize = 0;
    while i < list.len()
        invariant
            i <= list@.len(),
            script.wf(),
            script.events@ == pre + move_events(list@.take(i as int), t),
            script.events@.len() > 0 ==> script.events@.last().at_nanos <= t,
        decreases list@.len() - i,
    {
        let d = list[i];
        script.push(
            t,
            InputEvent::MouseMove { dx_milli: d.dx_milli, dy_milli: d.dy_milli, cursor: d.cursor },
        );
        proof {
            assert(list@.take(i + 1) =~= list@.take(i as int).push(list@[i as int]));
            assert(move_events(list@.take(i + 1), t) =~= move_events(list@.take(i as int), t).push(
                TimestampedEvent {
                    at_nanos: t,
                    event: InputEvent::MouseMove {
                        dx_milli: d.dx_milli,
                        dy_milli: d.dy_milli,
                        cursor: d.cursor,
                    },
                },
            ));
            assert(script.events@ =~= pre + move_events(list@.take(i + 1), t));
        }
        i = i + 1;
    }
    proof {
        assert(list@.take(list@.len() as int) =~= list@);
    }
}

} // verus!
