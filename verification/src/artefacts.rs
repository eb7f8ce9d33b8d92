//! Artefact manifest: the diagnostic files a run is expected to write.
//!
//! A playback run captures a screenshot just before and just after the
//! verdict and, when requested, a frame-metrics file. Paths live under one
//! artefact directory per test case. A run without a display surface drops
//! the screenshot expectations; a run without metrics collection drops the
//! metrics expectation. The `saved` predicate over observed file sizes gates
//! shutdown.

use vstd::prelude::*;
use vstd::string::StringExecFns;

verus! {

/// Whether an observed file (its size, or `None` when missing) counts as
/// durably written: present and non-empty.
pub open spec fn file_nonempty(size: Option<u64>) -> bool {
    match size {
        Some(len) => len > 0,
        None => false,
    }
}

/// Whether every artefact expected for this run is confirmed written:
/// screenshots unless headless, the metrics file when collection is on.
pub open spec fn spec_saved(running_headless: bool, collect_metrics: bool, pre: Option<u64>,
    post: Option<u64>, metrics: Option<u64>) -> bool {
    &&& running_headless || file_nonempty(pre)
    &&& running_headless || file_nonempty(post)
    &&& !collect_metrics || file_nonempty(metrics)
}

/// The artefact files of one run: their directory and what this run expects.
pub struct ArtefactPaths {
    /// The artefact directory of the test case, without a trailing slash.
    pub base: String,
    /// No display surface exists, so no screenshots can be taken.
    pub running_headless: bool,
    /// Frame metrics were requested for this run.
    pub collect_metrics: bool,
}

impl ArtefactPaths {
    pub fn new(base: String, running_headless: bool, collect_metrics: bool) -> (r: ArtefactPaths)
        ensures
            r.base@ == base@,
            r.running_headless == running_headless,
            r.collect_metrics == collect_metrics,
    {
        ArtefactPaths { base, running_headless, collect_metrics }
    }

    /// Path of the screenshot taken when assertion starts.
    pub fn pre_assert_screenshot(&self) -> (r: String)
        ensures
            r@ == self.base@ + "/pre-assert.png"@,
    {
        let mut s = String::from_str(self.base.as_str());
        s.append("/pre-assert.png");
        s
    }

    /// Path of the screenshot taken when the verdict is decided.
    pub fn post_assert_screenshot(&self) -> (r: String)
        ensures
            r@ == self.base@ + "/post-assert.png"@,
    {
        let mut s = String::from_str(self.base.as_str());
        s.append("/post-assert.png");
        s
    }

    /// Path of the frame-metrics file.
    pub fn frame_metrics(&self) -> (r: String)
        ensures
            r@ == self.base@ + "/frame_metrics.json"@,
    {
        let mut s = String::from_str(self.base.as_str());
        s.append("/frame_metrics.json");
        s
    }

    /// Whether everything this run expects is confirmed written, given the
    /// observed size of each artefact file (`None` when the file is
    /// missing). The caller polls the filesystem and passes what it saw.
    pub fn saved(&self, pre: Option<u64>, post: Option<u64>, metrics: Option<u64>) -> (r: bool)
        ensures
            r == spec_saved(self.running_headless, self.collect_metrics, pre, post, metrics),
    {
        let pre_ok = self.running_headless || file_nonempty_exec(pre);
        let post_ok = self.running_headless || file_nonempty_exec(post);
        let metrics_ok = !self.collect_metrics || file_nonempty_exec(metrics);
        pre_ok && post_ok && metrics_ok
    }
}

/// Executable form of `file_nonempty`.
fn file_nonempty_exec(size: Option<u64>) -> (r: bool)
    ensures
        r == file_nonempty(size),
{
    match size {
        Some(len) => len > 0,
        None => false,
    }
}

/// The asynchronous capture requests a playback run makes, each fire-once:
/// the underlying capture is asynchronous and must not be reissued.
pub struct CaptureRequests {
    /// The artefact directory was already cleared and recreated.
    pub dir_prepared: bool,
    /// The pre-assert screenshot was already requested.
    pub pre_requested: bool,
    /// The post-assert screenshot was already requested.
    pub post_requested: bool,
}

/// What the caller must perform after one capture tick.
#[derive(Clone, Copy, Debug, PartialEq, Eq, Structural)]
pub struct CaptureActions {
    /// Delete and recreate the artefact directory.
    pub recreate_dir: bool,
    /// Request the pre-assert screenshot.
    pub shoot_pre: bool,
    /// Request the post-assert screenshot.
    pub shoot_post: bool,
}

impl CaptureRequests {
    /// No request made yet.
    pub fn new() -> (r: CaptureRequests)
        ensures
            !r.dir_prepared,
            !r.pre_requested,
            !r.post_requested,
    {
        CaptureRequests { dir_prepared: false, pre_requested: false, post_requested: false }
    }

    /// One capture tick, run between the verdict check and the termination
    /// check: on the assertion-start signal the directory is recreated and
    /// the pre-assert screenshot requested, on the decision event the
    /// post-assert screenshot; each exactly once per run.
    pub fn step(&mut self, start_asserting: bool, decided: bool) -> (r: CaptureActions)
        ensures
            r.recreate_dir == (start_asserting && !old(self).dir_prepared),
            r.shoot_pre == (start_asserting && !old(self).pre_requested),
            r.shoot_post == (decided && !old(self).post_requested),
            final(self).dir_prepared == (old(self).dir_prepared || start_asserting),
            final(self).pre_requested == (old(self).pre_requested || start_asserting),
            final(self).post_requested == (old(self).post_requested || decided),
    {
        let r = CaptureActions {
            recreate_dir: start_asserting && !self.dir_prepared,
            shoot_pre: start_asserting && !self.pre_requested,
            shoot_post: decided && !self.post_requested,
        };
        if start_asserting {
            self.dir_prepared = true;
            self.pre_requested = true;
        }
        if decided {
            self.post_requested = true;
        }
        r
    }
}

} // verus!
