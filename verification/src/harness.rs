//! The per-tick pipelines of a whole run, one call per scheduler tick.
//!
//! The host loop performs I/O — reading devices, applying inputs, taking
//! screenshots, polling files, exiting — and hands plain values in and out;
//! every decision lives here. Phase order within one tick follows the
//! pipeline: anchor, then player or recorder, then the verdict check, then
//! artefact requests, then the termination check, so a `Quit` played this
//! tick can arm assertion this tick and the screenshots bracket the
//! decision point.

use vstd::prelude::*;

use crate::anchor::{spec_marked, ClockAnchor};
use crate::artefacts::{spec_saved, ArtefactPaths, CaptureActions, CaptureRequests};
use crate::metrics::FrameCollector;
use crate::player::{events_of, has_quit, lower_bound, window, Player};
use crate::recorder::{InputSnapshot, Recorder, SavePhase, SAVE_DELAY_NANOS};
use crate::script::InputEvent;
use crate::sequencer::{spec_capture, spec_exit_action, ExitAction, TerminationSequencer};
use crate::verdict::AssertPhase;

verus! {

/// What one playback tick asks the host loop to do.
pub struct PlaybackTickOutput {
    /// Controller ids to report as connected, before any input applies.
    pub connect_pads: Vec<u32>,
    /// The input events of this tick's window, to apply to the devices.
    pub events: Vec<InputEvent>,
    /// Playback exhausted on this very tick.
    pub start_asserting: bool,
    /// The verdict decided on this very tick, if it did.
    pub decided: Option<bool>,
    /// Artefact-directory and screenshot work owed this tick.
    pub capture: CaptureActions,
    /// Summarize and write the frame-metrics artefact this tick.
    pub write_metrics: bool,
    /// Keep ticking, exit gracefully, or fail the test.
    pub exit: ExitAction,
}

/// The playback pipeline: clock anchor, player, verdict state machine,
/// artefact requests, frame metrics and termination sequencer, advanced
/// together one tick at a time.
pub struct PlaybackHarness {
    pub anchor: ClockAnchor,
    pub player: Player,
    pub phase: AssertPhase,
    pub captures: CaptureRequests,
    pub collector: FrameCollector,
    pub sequencer: TerminationSequencer,
    pub paths: ArtefactPaths,
    /// Grace period the application gets to report after input ends.
    pub window_nanos: u64,
    /// Whether frame metrics are collected and expected as an artefact.
    pub collect_metrics: bool,
    /// The time of the last tick, for monotonicity.
    pub last_now: u64,
}

impl PlaybackHarness {
    /// The pieces fit together: the player is consistent, and once the run
    /// is anchored the player's clock is exactly the time since the anchor.
    pub open spec fn wf(&self) -> bool {
        &&& self.player.wf()
        &&& self.anchor.anchor matches Some(a) ==> a <= self.last_now
        &&& (self.player.last_elapsed is Some <==> self.anchor.anchor is Some)
        &&& (self.player.last_elapsed matches Some(l) ==> self.anchor.anchor matches Some(a) && l
            == self.last_now - a)
    }

    /// A harness at the start of a playback run.
    pub fn new(player: Player, paths: ArtefactPaths, manual_start: bool, window_nanos: u64,
        collect_metrics: bool) -> (r: PlaybackHarness)
        requires
            player.wf(),
            player.last_elapsed is None,
        ensures
            r.wf(),
            r.player == player,
            r.anchor.anchor is None,
            r.anchor.manual == manual_start,
            !r.anchor.started,
            r.phase is Idle,
            r.sequencer.result is None,
            r.collector.samples@ == Seq::<u64>::empty(),
            !r.captures.dir_prepared && !r.captures.pre_requested && !r.captures.post_requested,
            r.paths == paths,
            r.window_nanos == window_nanos,
            r.collect_metrics == collect_metrics,
    {
        PlaybackHarness {
            anchor: ClockAnchor::new(manual_start),
            player,
            phase: AssertPhase::new(),
            captures: CaptureRequests::new(),
            collector: FrameCollector::new(),
            sequencer: TerminationSequencer::new(),
            paths,
            window_nanos,
            collect_metrics,
            last_now: 0,
        }
    }

    /// The application's explicit start signal, for manual-start runs.
    pub fn start(&mut self)
        ensures
            *final(self) == (PlaybackHarness {
                anchor: (ClockAnchor { started: true, ..old(self).anchor }),
                ..*old(self)
            }),
    {
        self.anchor.start();
    }

    /// One tick of the playback pipeline at absolute time `now_nanos`.
    ///
    /// `delta_nanos` is this tick's duration, `outcome` the externally owned
    /// verdict resource, and the three sizes are what the host observed of
    /// the artefact files (`None` for a missing file).
    pub fn tick(&mut self, now_nanos: u64, delta_nanos: u64, outcome: Option<bool>,
        pre_size: Option<u64>, post_size: Option<u64>, metrics_size: Option<u64>) -> (r:
        PlaybackTickOutput)
        requires
            old(self).wf(),
            old(self).last_now <= now_nanos,
            now_nanos + old(self).window_nanos <= u64::MAX,
        ensures
            final(self).wf(),
            final(self).last_now == now_nanos,
            final(self).window_nanos == old(self).window_nanos,
            final(self).collect_metrics == old(self).collect_metrics,
            final(self).paths == old(self).paths,
            final(self).player.script.events@ == old(self).player.script.events@,
            // Clock anchor: set once, on the first active tick.
            final(self).anchor.anchor == spec_marked(old(self).anchor, now_nanos),
            final(self).anchor.manual == old(self).anchor.manual,
            final(self).anchor.started == old(self).anchor.started,
            // Synthetic device connections go out once, on the first tick.
            final(self).player.pads_connected,
            old(self).player.pads_connected ==> r.connect_pads@ == Seq::<u32>::empty(),
            !old(self).player.pads_connected ==> r.connect_pads@ == crate::script::pads_referenced(
                old(self).player.script.events@,
            ),
            // Replay: without an anchor nothing moves; with one, exactly
            // this tick's half-open window is delivered, in script order.
            spec_marked(old(self).anchor, now_nanos) is None ==> r.events@ == Seq::<
                InputEvent,
            >::empty() && !r.start_asserting && final(self).player.last_elapsed == old(
                self,
            ).player.last_elapsed && final(self).player.cursor == old(self).player.cursor,
            spec_marked(old(self).anchor, now_nanos) matches Some(a) ==> {
                &&& r.events@ == events_of(
                    window(
                        old(self).player.script.events@,
                        lower_bound(old(self).player.last_elapsed),
                        now_nanos - a,
                    ),
                )
                &&& r.start_asserting == has_quit(
                    window(
                        old(self).player.script.events@,
                        lower_bound(old(self).player.last_elapsed),
                        now_nanos - a,
                    ),
                )
                &&& final(self).player.last_elapsed == Some((now_nanos - a) as u64)
            },
            // Verdict state machine, fed by this very tick's exhaustion
            // signal; `r.decided` is its decision event.
            old(self).phase is Idle && r.start_asserting ==> final(self).phase
                == (AssertPhase::Armed { deadline: (now_nanos + old(self).window_nanos) as u64 })
                && r.decided is None,
            old(self).phase is Idle && !r.start_asserting ==> final(self).phase == old(self).phase
                && r.decided is None,
            old(self).phase matches AssertPhase::Armed { deadline } ==> {
                &&& outcome == Some(true) ==> final(self).phase == (AssertPhase::Decided {
                    passed: true,
                }) && r.decided == Some(true)
                &&& outcome != Some(true) && (outcome == Some(false) || now_nanos >= deadline)
                    ==> final(self).phase == (AssertPhase::Decided { passed: false }) && r.decided
                    == Some(false)
                &&& outcome is None && now_nanos < deadline ==> final(self).phase == old(self).phase
                    && r.decided is None
            },
            old(self).phase is Decided ==> final(self).phase == old(self).phase && r.decided
                is None,
            // Artefact requests bracket the decision point, each fire-once.
            r.capture.recreate_dir == (r.start_asserting && !old(self).captures.dir_prepared),
            r.capture.shoot_pre == (r.start_asserting && !old(self).captures.pre_requested),
            r.capture.shoot_post == (r.decided is Some && !old(self).captures.post_requested),
            final(self).captures.dir_prepared == (old(self).captures.dir_prepared
                || r.start_asserting),
            final(self).captures.pre_requested == (old(self).captures.pre_requested
                || r.start_asserting),
            final(self).captures.post_requested == (old(self).captures.post_requested || r.decided
                is Some),
            // Frame metrics: one sample per anchored tick; the summary is
            // owed on the decision tick of a metrics-collecting run.
            spec_marked(old(self).anchor, now_nanos) is Some ==> final(self).collector.samples@
                == old(self).collector.samples@.push(delta_nanos),
            spec_marked(old(self).anchor, now_nanos) is None ==> final(self).collector == old(
                self,
            ).collector,
            r.write_metrics == (r.decided is Some && old(self).collect_metrics),
            // Termination: the verdict is captured once; exit or failure is
            // requested only with a verdict stored and every expected
            // artefact confirmed non-empty, and then at once.
            r.exit == spec_exit_action(
                old(self).sequencer.result,
                spec_saved(
                    old(self).paths.running_headless,
                    old(self).paths.collect_metrics,
                    pre_size,
                    post_size,
                    metrics_size,
                ),
            ),
            final(self).sequencer.result == spec_capture(old(self).sequencer.result, r.decided),
            r.exit != ExitAction::Continue ==> old(self).sequencer.result is Some && spec_saved(
                old(self).paths.running_headless,
                old(self).paths.collect_metrics,
                pre_size,
                post_size,
                metrics_size,
            ),
    {
        self.anchor.mark_if_unset(now_nanos);
        let connect_pads = self.player.pads_to_connect();
        let delivery = self.player.tick(&self.anchor, now_nanos);
        let decided = self.phase.step(
            now_nanos,
            outcome,
            delivery.start_asserting,
            self.window_nanos,
        );
        let capture = self.captures.step(delivery.start_asserting, decided.is_some());
        self.collector.record(self.anchor.is_set(), delta_nanos);
        let write_metrics = decided.is_some() && self.collect_metrics;
        let saved = self.paths.saved(pre_size, post_size, metrics_size);
        let exit = self.sequencer.step(decided, saved);
        self.last_now = now_nanos;
        PlaybackTickOutput {
            connect_pads,
            events: delivery.events,
            start_asserting: delivery.start_asserting,
            decided,
            capture,
            write_metrics,
            exit,
        }
    }
}

/// What one recording tick asks the host loop to do.
pub struct RecordingTickOutput {
    /// Finalize happened this tick: write these bytes to the script file,
    /// whole, and exit gracefully.
    pub save_bytes: Option<Vec<u8>>,
}

/// The recording pipeline: clock anchor, recorder and completion detection,
/// advanced together one tick at a time.
pub struct RecordingHarness {
    pub anchor: ClockAnchor,
    pub recorder: Recorder,
    pub save: SavePhase,
    /// The time of the last tick, for monotonicity.
    pub last_now: u64,
}

impl RecordingHarness {
    /// The pieces fit together: once anchored, nothing recorded is newer
    /// than the time since the anchor.
    pub open spec fn wf(&self) -> bool {
        &&& self.recorder.wf()
        &&& self.anchor.anchor matches Some(a) ==> a <= self.last_now && self.recorder.last_rel
            <= self.last_now - a
        &&& self.anchor.anchor is None ==> self.recorder.last_rel == 0
    }

    /// A harness at the start of a recording run.
    pub fn new(manual_start: bool) -> (r: RecordingHarness)
        ensures
            r.wf(),
            r.anchor.anchor is None,
            r.anchor.manual == manual_start,
            !r.anchor.started,
            r.recorder.script.events@ == Seq::<crate::script::TimestampedEvent>::empty(),
            r.save is Watching,
    {
        RecordingHarness {
            anchor: ClockAnchor::new(manual_start),
            recorder: Recorder::new(),
            save: SavePhase::new(),
            last_now: 0,
        }
    }

    /// The application's explicit start signal, for manual-start runs.
    pub fn start(&mut self)
        ensures
            *final(self) == (RecordingHarness {
                anchor: (ClockAnchor { started: true, ..old(self).anchor }),
                ..*old(self)
            }),
    {
        self.anchor.start();
    }

    /// One tick of the recording pipeline at absolute time `now_nanos`.
    ///
    /// `snap` is the current input-device state, `passed` whether the
    /// verdict reports a pass, `quit_signal` an external request to finish.
    /// When the grace delay after completion runs out, the script is
    /// finalized and its bytes handed out to be written, exactly once.
    pub fn tick(&mut self, now_nanos: u64, snap: &InputSnapshot, passed: bool, quit_signal: bool)
        -> (r: RecordingTickOutput)
        requires
            old(self).wf(),
            old(self).last_now <= now_nanos,
            now_nanos + SAVE_DELAY_NANOS <= u64::MAX,
        ensures
            final(self).wf(),
            final(self).last_now == now_nanos,
            final(self).anchor.anchor == spec_marked(old(self).anchor, now_nanos),
            final(self).anchor.manual == old(self).anchor.manual,
            final(self).anchor.started == old(self).anchor.started,
            // Anchor gating: an unanchored tick records nothing.
            spec_marked(old(self).anchor, now_nanos) is None ==> final(self).recorder == old(
                self,
            ).recorder && r.save_bytes is None,
            // An anchored tick appends exactly this tick's edge and change
            // events, all at the relative time.
            spec_marked(old(self).anchor, now_nanos) matches Some(a) ==> (!old(self).save_spec(
                now_nanos,
                passed,
                quit_signal,
            ) ==> final(self).recorder.script.events@ == old(self).recorder.script.events@
                + crate::recorder::tick_events(
                snap,
                old(self).recorder.prev_keys@,
                old(self).recorder.prev_mouse@,
                old(self).recorder.prev_pad@,
                old(self).recorder.axis_cache@,
                (now_nanos - a) as u64,
            )),
            // Completion: on the save tick the script gains the terminal
            // `Quit` and its encoded bytes go out, once.
            spec_marked(old(self).anchor, now_nanos) matches Some(a) ==> (old(self).save_spec(
                now_nanos,
                passed,
                quit_signal,
            ) ==> {
                &&& r.save_bytes matches Some(b) && b@ == crate::codec::spec_encode(
                    final(self).recorder.script.events@,
                )
                &&& final(self).recorder.script.events@.last() == (crate::script::TimestampedEvent {
                    at_nanos: (now_nanos - a) as u64,
                    event: InputEvent::Quit,
                })
            }),
            final(self).save is SaveRequested ==> r.save_bytes is None || old(self).save_spec(now_nanos, passed, quit_signal),
    {
        self.anchor.mark_if_unset(now_nanos);
        if !self.anchor.is_set() {
            self.last_now = now_nanos;
            return RecordingTickOutput { save_bytes: None };
        }
        self.recorder.tick(&self.anchor, now_nanos, snap);
        let save_now = self.save.step(now_nanos, passed, quit_signal);
        let save_bytes = if save_now {
            Some(self.recorder.finalize(&self.anchor, now_nanos))
        } else {
            None
        };
        self.last_now = now_nanos;
        RecordingTickOutput { save_bytes }
    }

    /// Whether this tick is the one on which the save fires: the grace
    /// delay was running and has just run out.
    pub open spec fn save_spec(&self, now_nanos: u64, passed: bool, quit_signal: bool) -> bool {
        match self.save {
            SavePhase::Delaying { deadline } => now_nanos >= deadline,
            _ => false,
        }
    }
}

} // verus!
