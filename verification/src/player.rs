//! Script player: deterministic replay of a recorded script.
//!
//! Each tick delivers exactly the events whose timestamp falls in the
//! half-open window `(last_elapsed, now_elapsed]`, in script order, so every
//! event is delivered exactly once, on the first tick whose window contains
//! it, independent of the actual frame rate. Before the first tick the lower
//! bound lies below zero, so events recorded at the anchor instant itself
//! are delivered too.

use vstd::prelude::*;

use crate::anchor::ClockAnchor;
use crate::script::{monotone, InputEvent, Script, TimestampedEvent};

verus! {

/// The events of a script whose timestamp lies in the half-open window
/// `(lo, hi]`, in script order.
pub open spec fn window(s: Seq<TimestampedEvent>, lo: int, hi: int) -> Seq<TimestampedEvent>
    decreases s.len(),
{
    if s.len() == 0 {
        Seq::empty()
    } else {
        (if lo < s[0].at_nanos && s[0].at_nanos <= hi {
            seq![s[0]]
        } else {
            Seq::empty()
        }) + window(s.drop_first(), lo, hi)
    }
}

/// The bare events of a timestamped sequence, in order.
pub open spec fn events_of(s: Seq<TimestampedEvent>) -> Seq<InputEvent> {
    s.map_values(|te: TimestampedEvent| te.event)
}

/// Whether the sequence holds the terminal `Quit` sentinel.
pub open spec fn has_quit(s: Seq<TimestampedEvent>) -> bool {
    exists|i: int| 0 <= i < s.len() && s[i].event is Quit
}

/// The lower window bound a player state stands for: one tick below zero
/// before the first tick, so that events at time zero are still delivered.
pub open spec fn lower_bound(last: Option<u64>) -> int {
    match last {
        None => -1,
        Some(l) => l as int,
    }
}

/// A window over events that all lie above it is empty.
proof fn lemma_window_all_above(s: Seq<TimestampedEvent>, lo: int, hi: int)
    requires
        forall|i: int| 0 <= i < s.len() ==> s[i].at_nanos > hi,
    ensures
        window(s, lo, hi) =~= Seq::<TimestampedEvent>::empty(),
    decreases s.len(),
{
    if s.len() > 0 {
        lemma_window_all_above(s.drop_first(), lo, hi);
    }
}

/// A window ignores a prefix of events at or below its lower bound.
proof fn lemma_window_skip_low(s: Seq<TimestampedEvent>, lo: int, hi: int, c: int)
    requires
        0 <= c <= s.len(),
        forall|i: int| 0 <= i < c ==> s[i].at_nanos <= lo,
    ensures
        window(s, lo, hi) =~= window(s.skip(c), lo, hi),
    decreases c,
{
    if c > 0 {
        assert(s.len() > 0);
        assert(!(lo < s[0].at_nanos));
        lemma_window_skip_low(s.drop_first(), lo, hi, c - 1);
        assert(s.drop_first().skip(c - 1) =~= s.skip(c));
    } else {
        assert(s.skip(0) =~= s);
    }
}

/// Replay coverage and ordering: for a monotone script, two consecutive tick
/// windows deliver together exactly what the combined window delivers — no
/// event twice, none skipped, ties in script order.
pub proof fn lemma_window_split(s: Seq<TimestampedEvent>, a: int, b: int, c: int)
    requires
        monotone(s),
        a <= b <= c,
    ensures
        window(s, a, c) =~= window(s, a, b) + window(s, b, c),
    decreases s.len(),
{
    if s.len() > 0 {
        let rest = s.drop_first();
        assert(monotone(rest)) by {
            assert(forall|i: int, j: int|
                0 <= i <= j < rest.len() ==> rest[i].at_nanos <= rest[j].at_nanos) by {
                assert(forall|i: int| 0 <= i < rest.len() ==> rest[i] == s[i + 1]);
            }
        }
        lemma_window_split(rest, a, b, c);
        let t0 = s[0].at_nanos;
        if b < t0 && t0 <= c {
            assert(forall|i: int| 0 <= i < rest.len() ==> rest[i].at_nanos > b) by {
                assert(forall|i: int| 0 <= i < rest.len() ==> rest[i] == s[i + 1]);
                assert(forall|i: int| 0 <= i < rest.len() ==> s[0].at_nanos <= rest[i].at_nanos);
            }
            lemma_window_all_above(rest, a, b);
        }
        if t0 > c {
            assert(forall|i: int| 0 <= i < rest.len() ==> rest[i].at_nanos > c) by {
                assert(forall|i: int| 0 <= i < rest.len() ==> rest[i] == s[i + 1]);
                assert(forall|i: int| 0 <= i < rest.len() ==> s[0].at_nanos <= rest[i].at_nanos);
            }
            lemma_window_all_above(rest, a, b);
            lemma_window_all_above(rest, b, c);
            lemma_window_all_above(rest, a, c);
        }
    }
}

/// A window that spans every timestamp delivers the whole script: together
/// with the split law, a run of ticks whose windows cover the timeline
/// delivers every event exactly once, in script order.
pub proof fn lemma_window_covers_all(s: Seq<TimestampedEvent>, lo: int, hi: int)
    requires
        forall|i: int| 0 <= i < s.len() ==> lo < (#[trigger] s[i]).at_nanos <= hi,
    ensures
        window(s, lo, hi) =~= s,
    decreases s.len(),
{
    if s.len() > 0 {
        assert(forall|i: int|
            0 <= i < s.drop_first().len() ==> s.drop_first()[i] == s[i + 1]);
        lemma_window_covers_all(s.drop_first(), lo, hi);
        assert(seq![s[0]] + s.drop_first() =~= s);
    }
}

/// What one player tick delivered to the caller.
pub struct TickDelivery {
    /// The events of this tick's window, in script order, to be applied to
    /// the simulated input devices.
    pub events: Vec<InputEvent>,
    /// Whether the window held the terminal `Quit`: playback is exhausted
    /// and the verdict state machine takes over.
    pub start_asserting: bool,
}

/// Replays a loaded script against the host's input devices, one window per
/// tick.
pub struct Player {
    /// The script under playback; immutable here.
    pub script: Script,
    /// Upper bound of the last delivered window, relative to the anchor;
    /// absent before the first tick.
    pub last_elapsed: Option<u64>,
    /// Number of events delivered so far: events strictly before the cursor
    /// are at or below the lower bound, the rest above it.
    pub cursor: usize,
    /// Whether the synthetic device-connected signals went out already.
    pub pads_connected: bool,
}

impl Player {
    /// Internal consistency: the script is monotone and the cursor splits it
    /// at the current lower bound.
    pub open spec fn wf(&self) -> bool {
        &&& self.script.wf()
        &&& self.cursor <= self.script.events@.len()
        &&& forall|i: int|
            0 <= i < self.cursor ==> self.script.events@[i].at_nanos <= lower_bound(
                self.last_elapsed,
            )
        &&& forall|i: int|
            self.cursor <= i < self.script.events@.len() ==> self.script.events@[i].at_nanos
                > lower_bound(self.last_elapsed)
    }

    /// A player at the start of playback: nothing delivered yet.
    pub fn new(script: Script) -> (r: Player)
        requires
            script.wf(),
        ensures
            r.wf(),
            r.script.events@ == script.events@,
            r.last_elapsed is None,
            !r.pads_connected,
    {
        Player { script, last_elapsed: None, cursor: 0, pads_connected: false }
    }

    /// The synthetic "device connected" signals owed before the first
    /// playback tick: every distinct controller id the script refers to,
    /// once. Idempotent: later calls return nothing.
    pub fn pads_to_connect(&mut self) -> (r: Vec<u32>)
        ensures
            final(self).script.events@ == old(self).script.events@,
            final(self).last_elapsed == old(self).last_elapsed,
            final(self).cursor == old(self).cursor,
            final(self).pads_connected,
            old(self).pads_connected ==> r@ == Seq::<u32>::empty(),
            !old(self).pads_connected ==> r@ == crate::script::pads_referenced(
                old(self).script.events@,
            ),
            old(self).wf() ==> final(self).wf(),
    {
        if self.pads_connected {
            Vec::new()
        } else {
            self.pads_connected = true;
            self.script.controller_ids()
        }
    }

    /// One playback tick at absolute time `now_nanos`.
    ///
    /// With no anchor set this mutates nothing and delivers nothing. With an
    /// anchor at `a`, it delivers exactly the events of the window
    /// `(last_elapsed, now_nanos - a]`, in script order, and reports whether
    /// the terminal `Quit` was among them.
    pub fn tick(&mut self, anchor: &ClockAnchor, now_nanos: u64) -> (r: TickDelivery)
        requires
            old(self).wf(),
            anchor.anchor matches Some(a) ==> a <= now_nanos && lower_bound(old(self).last_elapsed)
                <= now_nanos - a,
        ensures
            final(self).wf(),
            final(self).script.events@ == old(self).script.events@,
            final(self).pads_connected == old(self).pads_connected,
            anchor.anchor is None ==> *final(self) == *old(self) && r.events@ == Seq::<
                InputEvent,
            >::empty() && !r.start_asserting,
            anchor.anchor matches Some(a) ==> {
                &&& final(self).last_elapsed == Some((now_nanos - a) as u64)
                &&& r.events@ == events_of(
                    window(
                        old(self).script.events@,
                        lower_bound(old(self).last_elapsed),
                        now_nanos - a,
                    ),
                )
                &&& r.start_asserting == has_quit(
                    window(
                        old(self).script.events@,
                        lower_bound(old(self).last_elapsed),
                        now_nanos - a,
                    ),
                )
            },
    {
        let a = match anchor.get() {
            Some(a) => a,
            None => {
                return TickDelivery { events: Vec::new(), start_asserting: false };
            },
        };
        let rel: u64 = now_nanos - a;
        let ghost lo = lower_bound(self.last_elapsed);
        let ghost s = self.script.events@;
        let c0 = self.cursor;
        let mut j: usize = self.cursor;
        let mut delivered: Vec<InputEvent> = Vec::new();
        let mut quit_seen: bool = false;
        proof {
            assert(window(s.skip(c0 as int), lo, rel as int) =~= s.subrange(c0 as int, j as int)
                + window(s.skip(j as int), lo, rel as int));
        }
        while j < self.script.events.len() && self.script.events[j].at_nanos <= rel
            invariant
                self == old(self),
                s == self.script.events@,
                self.wf(),
                lo == lower_bound(self.last_elapsed),
                lo <= rel,
                c0 == self.cursor,
                c0 <= j <= s.len(),
                forall|i: int| c0 <= i < j ==> lo < (#[trigger] s[i]).at_nanos <= rel,
                window(s.skip(c0 as int), lo, rel as int) =~= s.subrange(c0 as int, j as int)
                    + window(s.skip(j as int), lo, rel as int),
                delivered@ == events_of(s.subrange(c0 as int, j as int)),
                quit_seen == has_quit(s.subrange(c0 as int, j as int)),
            decreases s.len() - j,
        {
            let te = self.script.events[j];
            delivered.push(te.event);
            if matches!(te.event, InputEvent::Quit) {
                quit_seen = true;
            }
            proof {
                assert(s.skip(j as int)[0] == s[j as int]);
                assert(s.skip(j as int).drop_first() =~= s.skip(j + 1));
                assert(window(s.skip(j as int), lo, rel as int) =~= seq![s[j as int]] + window(
                    s.skip(j + 1),
                    lo,
                    rel as int,
                ));
                assert(s.subrange(c0 as int, j + 1) =~= s.subrange(c0 as int, j as int).push(
                    s[j as int],
                ));
                assert(s.subrange(c0 as int, j as int) + (seq![s[j as int]] + window(
                    s.skip(j + 1),
                    lo,
                    rel as int,
                )) =~= s.subrange(c0 as int, j + 1) + window(s.skip(j + 1), lo, rel as int));
                assert(events_of(s.subrange(c0 as int, j + 1)) =~= events_of(
                    s.subrange(c0 as int, j as int),
                ).push(s[j as int].event));
                if s[j as int].event is Quit {
                    assert(s.subrange(c0 as int, j + 1)[j - c0].event is Quit);
                    assert(has_quit(s.subrange(c0 as int, j + 1)));
                } else {
                    assert(has_quit(s.subrange(c0 as int, j + 1)) == has_quit(
                        s.subrange(c0 as int, j as int),
                    )) by {
                        if has_quit(s.subrange(c0 as int, j + 1)) {
                            let w = choose|i: int|
                                0 <= i < s.subrange(c0 as int, j + 1).len() && (#[trigger] s.subrange(
                                    c0 as int,
                                    j + 1,
                                )[i]).event is Quit;
                            assert(w < j + 1 - c0);
                            assert(w != j - c0);
                            assert(s.subrange(c0 as int, j as int)[w].event is Quit);
                        }
                    }
                }
            }
            j = j + 1;
        }
        proof {
            // Past the loop every remaining event lies above the window.
            if j < s.len() {
                assert(forall|i: int|
                    0 <= i < s.skip(j as int).len() ==> s.skip(j as int)[i].at_nanos > rel) by {
                    assert(forall|i: int|
                        0 <= i < s.skip(j as int).len() ==> s.skip(j as int)[i] == s[i + j]);
                    assert(forall|i: int|
                        j <= i < s.len() ==> s[j as int].at_nanos <= s[i].at_nanos);
                }
            }
            lemma_window_all_above(s.skip(j as int), lo, rel as int);
            lemma_window_skip_low(s, lo, rel as int, c0 as int);
            assert(window(s, lo, rel as int) =~= s.subrange(c0 as int, j as int));
        }
        self.cursor = j;
        self.last_elapsed = Some(rel);
        proof {
            assert forall|i: int| 0 <= i < self.cursor implies self.script.events@[i].at_nanos
                <= lower_bound(self.last_elapsed) by {
                if i < c0 {
                    assert(s[i].at_nanos <= lo);
                }
            }
        }
        TickDelivery { events: delivered, start_asserting: quit_seen }
    }
}

} // verus!
