//! Input record/replay test harness core.
//!
//! A recorded script of timestamped input events is replayed tick by tick
//! against an application under test; a write-once verdict, a frame-metric
//! collector and an artefact-gated termination sequencer turn the run into a
//! reproducible pass/fail integration test. The host runtime drives these
//! components through plain tick functions; all I/O stays with the caller.

pub mod anchor;
pub mod artefacts;
pub mod codec;
pub mod gear;
pub mod harness;
pub mod metrics;
pub mod player;
pub mod recorder;
pub mod script;
pub mod sequencer;
pub mod test_wrangler;
pub mod verdict;
