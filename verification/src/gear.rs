//! Harness construction: run options, file locations and the choice between
//! recording and playback.
//!
//! The caller reads the script file (if it exists) and hands the bytes in;
//! everything after that — decoding, validation, and the choice of mode —
//! is decided here. A missing script in read-only mode is a fatal
//! configuration error, never a silent fall-back to recording.

use vstd::prelude::*;
use vstd::string::StringExecFns;

use crate::codec;
use crate::player::Player;
use crate::recorder::Recorder;
use crate::script::monotone;

verus! {

/// Options of one harness run, fixed at construction.
pub struct PlaybackTestingOptions {
    /// Fail at startup if no script exists instead of entering record mode.
    pub read_only: bool,
    /// How long after input ends the application may still report a result.
    pub assert_window_nanos: u64,
    /// Collect per-tick frame metrics and write them as an artefact.
    pub collect_frame_metrics: bool,
    /// Wait for an explicit start signal instead of anchoring on the first
    /// tick, for applications with a multi-tick warm-up.
    pub manual_start: bool,
}

impl Default for PlaybackTestingOptions {
    /// Record when no script exists, a five-second assertion window,
    /// metrics on, automatic start.
    fn default() -> (r: PlaybackTestingOptions)
        ensures
            !r.read_only,
            r.assert_window_nanos == 5_000_000_000u64,
            r.collect_frame_metrics,
            !r.manual_start,
    {
        PlaybackTestingOptions {
            read_only: false,
            assert_window_nanos: 5_000_000_000,
            collect_frame_metrics: true,
            manual_start: false,
        }
    }
}

/// Why a harness could not be constructed; all fatal at startup.
#[derive(Clone, Copy, Debug, PartialEq, Eq, Structural)]
pub enum GearError {
    /// Read-only mode was requested but no script exists.
    ScriptMissing,
    /// The script file is not a well-formed sequence of records.
    ScriptMalformed,
    /// The script's timestamps decrease somewhere, so it cannot be played
    /// deterministically.
    ScriptNotMonotone,
}

/// The active side of a run: a script is either being played or being
/// grown, never both.
pub enum TestMode {
    Playback(Player),
    Recording(Recorder),
}

/// The harness for one named test case.
pub struct PlaybackTestGear {
    /// Name of the test case; decides the file locations.
    pub case_name: String,
    /// The run's options.
    pub options: PlaybackTestingOptions,
}

impl PlaybackTestGear {
    /// A harness for the named test case with the given options.
    pub fn new(case_name: String, options: PlaybackTestingOptions) -> (r: PlaybackTestGear)
        ensures
            r.case_name@ == case_name@,
            r.options == options,
    {
        PlaybackTestGear { case_name, options }
    }

    /// Where the script of this case lives.
    pub fn script_path(&self) -> (r: String)
        ensures
            r@ == "bitt/test_scripts/"@ + self.case_name@ + ".bitt_script"@,
    {
        let mut s = String::from_str("bitt/test_scripts/");
        s.append(self.case_name.as_str());
        s.append(".bitt_script");
        s
    }

    /// Where the artefacts of this case are written.
    pub fn artefact_path(&self) -> (r: String)
        ensures
            r@ == "bitt/artefacts/"@ + self.case_name@,
    {
        let mut s = String::from_str("bitt/artefacts/");
        s.append(self.case_name.as_str());
        s
    }

    /// Chooses the mode of the run from the script file's bytes, `None`
    /// when the file does not exist.
    ///
    /// An existing script is decoded and validated and the run plays it
    /// back; a missing script starts a fresh recording, unless read-only
    /// mode makes that a configuration error.
    pub fn start_mode(&self, script_bytes: Option<Vec<u8>>) -> (r: Result<TestMode, GearError>)
        ensures
            script_bytes is None && self.options.read_only ==> r == Result::<TestMode,
                GearError,
            >::Err(GearError::ScriptMissing),
            script_bytes is None && !self.options.read_only ==> (r matches Ok(
                TestMode::Recording(rec),
            ) && rec.script.events@.len() == 0 && rec.wf()),
            script_bytes matches Some(b) ==> {
                &&& codec::spec_decode(b@) is None ==> r == Result::<TestMode, GearError>::Err(
                    GearError::ScriptMalformed,
                )
                &&& codec::spec_decode(b@) matches Some(evs) ==> if monotone(evs) {
                    r matches Ok(TestMode::Playback(p)) && p.script.events@ == evs && p.wf()
                        && p.last_elapsed is None && !p.pads_connected
                } else {
                    r == Result::<TestMode, GearError>::Err(GearError::ScriptNotMonotone)
                }
            },
    {
        match script_bytes {
            None => {
                if self.options.read_only {
                    Err(GearError::ScriptMissing)
                } else {
                    Ok(TestMode::Recording(Recorder::new()))
                }
            },
            Some(bytes) => {
                match codec::decode(bytes.as_slice()) {
                    None => Err(GearError::ScriptMalformed),
                    Some(script) => {
                        if script.is_monotone() {
                            Ok(TestMode::Playback(Player::new(script)))
                        } else {
                            Err(GearError::ScriptNotMonotone)
                        }
                    },
                }
            },
        }
    }
}

} // verus!
