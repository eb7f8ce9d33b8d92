//! Script data model: timestamped input events recorded during a live run and
//! replayed later.
//!
//! Times are relative to the clock anchor of the run, in nanoseconds.
//! Fractional quantities of the input surface (axis positions, scroll and
//! cursor deltas) are carried in thousandths of their natural unit, so the
//! whole model stays in integers.

use vstd::prelude::*;

verus! {

/// Unit of a mouse-wheel delta: whole lines or thousandths of a pixel.
#[derive(Clone, Copy, Debug, PartialEq, Eq, Structural)]
pub enum ScrollUnit {
    Line,
    Pixel,
}

/// Whether a mouse-move event also warps the cursor to an absolute position
/// (in thousandths of a pixel).
#[derive(Clone, Copy, Debug, PartialEq, Eq, Structural)]
pub enum CursorTarget {
    Unchanged,
    MoveTo { x_milli: i32, y_milli: i32 },
}

/// One input transition, without a timestamp.
///
/// `Quit` is the sentinel appended once when a recording is saved; on replay
/// it hands control to the verdict state machine instead of the input sinks.
#[derive(Clone, Copy, Debug, PartialEq, Eq, Structural)]
pub enum InputEvent {
    KeyPress { key: u32 },
    KeyRelease { key: u32 },
    MouseButtonPress { button: u32 },
    MouseButtonRelease { button: u32 },
    MouseScroll { unit: ScrollUnit, x_milli: i32, y_milli: i32 },
    MouseMove { dx_milli: i32, dy_milli: i32, cursor: CursorTarget },
    ControllerButtonPress { pad: u32, button: u32 },
    ControllerButtonRelease { pad: u32, button: u32 },
    ControllerAxisChange { pad: u32, axis: u32, value_milli: i32 },
    Quit,
}

/// An input event together with its time relative to the clock anchor.
#[derive(Clone, Copy, Debug, PartialEq, Eq, Structural)]
pub struct TimestampedEvent {
    pub at_nanos: u64,
    pub event: InputEvent,
}

/// An ordered sequence of timestamped events: empty at the start of a
/// recording, append-only while recording, immutable during playback.
#[derive(Debug)]
pub struct Script {
    pub events: Vec<TimestampedEvent>,
}

/// Timestamps never decrease along the sequence; the player's windowing
/// logic relies on this.
pub open spec fn monotone(s: Seq<TimestampedEvent>) -> bool {
    forall|i: int, j: int| 0 <= i <= j < s.len() ==> s[i].at_nanos <= s[j].at_nanos
}

/// The controller id an event refers to, if it is a controller event.
pub open spec fn event_pad(e: InputEvent) -> Option<u32> {
    match e {
        InputEvent::ControllerButtonPress { pad, .. } => Some(pad),
        InputEvent::ControllerButtonRelease { pad, .. } => Some(pad),
        InputEvent::ControllerAxisChange { pad, .. } => Some(pad),
        _ => None,
    }
}

/// The distinct controller ids referenced anywhere in `s`, each at its first
/// occurrence, in order of first occurrence.
pub open spec fn pads_referenced(s: Seq<TimestampedEvent>) -> Seq<u32>
    decreases s.len(),
{
    if s.len() == 0 {
        Seq::empty()
    } else {
        let prior = pads_referenced(s.drop_last());
        match event_pad(s.last().event) {
            Some(pad) => if prior.contains(pad) {
                prior
            } else {
                prior.push(pad)
            },
            None => prior,
        }
    }
}

impl Script {
    pub open spec fn view_events(&self) -> Seq<TimestampedEvent> {
        self.events@
    }

    /// A script the player can rely on: non-decreasing timestamps.
    pub open spec fn wf(&self) -> bool {
        monotone(self.events@)
    }

    /// An empty script, as created at the start of a recording.
    pub fn new() -> (r: Script)
        ensures
            r.events@ =~= Seq::<TimestampedEvent>::empty(),
            r.wf(),
    {
        Script { events: Vec::new() }
    }

    pub fn len(&self) -> (r: usize)
        ensures
            r == self.events@.len(),
    {
        self.events.len()
    }

    /// Appends one event; recording keeps timestamps non-decreasing by
    /// requiring the new time not to precede the last one.
    pub fn push(&mut self, at_nanos: u64, event: InputEvent)
        requires
            old(self).events@.len() > 0 ==> old(self).events@.last().at_nanos <= at_nanos,
        ensures
            final(self).events@ == old(self).events@.push(
                TimestampedEvent { at_nanos, event },
            ),
            old(self).wf() ==> final(self).wf(),
    {
        let ghost pre = self.events@;
        self.events.push(TimestampedEvent { at_nanos, event });
        proof {
            if monotone(pre) {
                assert forall|i: int, j: int|
                    0 <= i <= j < self.events@.len() implies self.events@[i].at_nanos
                    <= self.events@[j].at_nanos by {
                    if j < pre.len() as int {
                        assert(pre[i].at_nanos <= pre[j].at_nanos);
                    } else if i < pre.len() as int {
                        assert(pre[i].at_nanos <= pre[pre.len() - 1].at_nanos);
                    }
                }
            }
        }
    }

    /// Whether the timestamps are non-decreasing, so that a loaded script may
    /// be handed to the player.
    pub fn is_monotone(&self) -> (r: bool)
        ensures
            r == self.wf(),
    {
        let mut i: usize = 1;
        while i < self.events.len()
            invariant
                1 <= i,
                i <= self.events@.len() || self.events@.len() == 0,
                forall|p: int, q: int|
                    0 <= p <= q < i && q < self.events@.len() ==> self.events@[p].at_nanos
                        <= self.events@[q].at_nanos,
            decreases self.events@.len() - i,
        {
            if self.events[i - 1].at_nanos > self.events[i].at_nanos {
                return false;
            }
            proof {
                assert forall|p: int, q: int|
                    0 <= p <= q < i + 1 && q < self.events@.len() implies self.events@[p].at_nanos
                    <= self.events@[q].at_nanos by {
                    if q == i && p < q {
                        assert(self.events@[p].at_nanos <= self.events@[i - 1].at_nanos);
                    }
                }
            }
            i = i + 1;
        }
        true
    }

    /// The distinct controller ids the script refers to, in order of first
    /// occurrence. Playback synthesizes a "device connected" signal for each
    /// before the first tick, so the application observes the same connected
    /// devices as the original session.
    pub fn controller_ids(&self) -> (r: Vec<u32>)
        ensures
            r@ == pads_referenced(self.events@),
    {
        let mut out: Vec<u32> = Vec::new();
        let mut i: usize = 0;
        while i < self.events.len()
            invariant
                i <= self.events@.len(),
                out@ == pads_referenced(self.events@.take(i as int)),
            decreases self.events@.len() - i,
        {
            let maybe_pad = match self.events[i].event {
                InputEvent::ControllerButtonPress { pad, .. } => Some(pad),
                InputEvent::ControllerButtonRelease { pad, .. } => Some(pad),
                InputEvent::ControllerAxisChange { pad, .. } => Some(pad),
                _ => None,
            };
            proof {
                assert(self.events@.take(i + 1).drop_last() =~= self.events@.take(i as int));
                assert(self.events@.take(i + 1).last() == self.events@[i as int]);
            }
            if let Some(pad) = maybe_pad {
                if !contains_u32(&out, pad) {
                    out.push(pad);
                }
            }
            i = i + 1;
        }
        proof {
            assert(self.events@.take(self.events@.len() as int) =~= self.events@);
        }
        out
    }
}

/// Linear membership scan for a vector of controller ids.
pub fn contains_u32(v: &Vec<u32>, x: u32) -> (r: bool)
    ensures
        r == v@.contains(x),
{
    let mut i: usize = 0;
    while i < v.len()
        invariant
            i <= v@.len(),
            forall|k: int| 0 <= k < i ==> v@[k] != x,
        decreases v@.len() - i,
    {
        if v[i] == x {
            return true;
        }
        i = i + 1;
    }
    false
}

} // verus!
