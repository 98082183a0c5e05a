use vstd::prelude::*;

use crate::status::PatchingStatus;

verus! {

/// Length of the window over which the download speed is measured, in
/// milliseconds.
pub const WINDOW_MS: u64 = 1000;

/// The bytes downloaded since `start_ms`, shared by all download workers.
#[derive(Debug, Clone, Copy, PartialEq, Eq, Structural)]
pub struct ProgressWindow {
    pub start_ms: u64,
    pub bytes: u64,
}

pub open spec fn sat_add(a: u64, b: u64) -> u64 {
    if a + b > u64::MAX {
        u64::MAX
    } else {
        (a + b) as u64
    }
}

pub open spec fn elapsed(start: u64, now: u64) -> u64 {
    if now >= start {
        (now - start) as u64
    } else {
        0
    }
}

impl ProgressWindow {
    pub fn new(now_ms: u64) -> (r: Self)
        ensures
            r == (ProgressWindow { start_ms: now_ms, bytes: 0 }),
    {
        ProgressWindow { start_ms: now_ms, bytes: 0 }
    }

    /// Adds `delta` downloaded bytes at time `now_ms`. Once a full window has
    /// passed, returns the speed in bytes per second over it and opens a new
    /// window at `now_ms`.
    pub fn observe(&mut self, now_ms: u64, delta: u64) -> (r: Option<u64>)
        ensures
            ({
                let b = sat_add(old(self).bytes, delta);
                let e = elapsed(old(self).start_ms, now_ms);
                if e >= WINDOW_MS {
                    &&& r == Some((b as int * 1000 / e as int) as u64)
                    &&& *final(self) == ProgressWindow { start_ms: now_ms, bytes: 0 }
                } else {
                    &&& r is None
                    &&& *final(self) == ProgressWindow { start_ms: old(self).start_ms, bytes: b }
                }
            }),
    {
        let b = self.bytes.saturating_add(delta);
        let e = now_ms.saturating_sub(self.start_ms);
        if e >= WINDOW_MS {
            let wide: u128 = (b as u128) * 1000 / (e as u128);
            proof {
                let bi = b as int;
                let ei = e as int;
                assert(bi * 1000 <= bi * ei) by (nonlinear_arith)
                    requires
                        ei >= 1000,
                        bi >= 0,
                ;
                assert((bi * 1000) / ei <= bi) by (nonlinear_arith)
                    requires
                        bi * 1000 <= bi * ei,
                        ei >= 1000,
                        bi >= 0,
                ;
            }
            self.start_ms = now_ms;
            self.bytes = 0;
            Some(wide as u64)
        } else {
            self.bytes = b;
            None
        }
    }
}

/// The progress of a batch of downloads, shared by its workers: how many
/// archives are complete, out of how many, and the speed window.
#[derive(Debug)]
pub struct DownloadProgress {
    done: usize,
    total: usize,
    window: ProgressWindow,
}

impl DownloadProgress {
    /// Archives downloaded and checked so far.
    pub closed spec fn done_spec(&self) -> usize {
        self.done
    }

    /// Archives in the batch.
    pub closed spec fn total_spec(&self) -> usize {
        self.total
    }

    pub closed spec fn window_spec(&self) -> ProgressWindow {
        self.window
    }

    /// No more archives are complete than the batch holds.
    pub closed spec fn wf(&self) -> bool {
        self.done <= self.total
    }

    pub fn new(total: usize, now_ms: u64) -> (r: Self)
        ensures
            r.wf(),
            r.done_spec() == 0,
            r.total_spec() == total,
            r.window_spec() == (ProgressWindow { start_ms: now_ms, bytes: 0 }),
    {
        DownloadProgress { done: 0, total, window: ProgressWindow::new(now_ms) }
    }

    pub fn done(&self) -> (r: usize)
        ensures
            r == self.done_spec(),
    {
        self.done
    }

    pub fn total(&self) -> (r: usize)
        ensures
            r == self.total_spec(),
    {
        self.total
    }

    /// The status sent before any download starts.
    pub fn started_status(&self) -> (r: PatchingStatus)
        ensures
            r == PatchingStatus::DownloadInProgress(0, self.total_spec(), 0),
    {
        PatchingStatus::DownloadInProgress(0, self.total, 0)
    }

    /// Counts `len` bytes received at `now_ms`; once a second has passed,
    /// returns the status to send, which counts complete archives only.
    pub fn on_chunk(&mut self, now_ms: u64, len: u64) -> (r: Option<PatchingStatus>)
        requires
            old(self).wf(),
        ensures
            final(self).wf(),
            final(self).done_spec() == old(self).done_spec(),
            final(self).total_spec() == old(self).total_spec(),
            ({
                let b = sat_add(old(self).window_spec().bytes, len);
                let e = elapsed(old(self).window_spec().start_ms, now_ms);
                if e >= WINDOW_MS {
                    &&& r == Some(
                        PatchingStatus::DownloadInProgress(
                            old(self).done_spec(),
                            old(self).total_spec(),
                            (b as int * 1000 / e as int) as u64,
                        ),
                    )
                    &&& final(self).window_spec() == ProgressWindow { start_ms: now_ms, bytes: 0 }
                } else {
                    &&& r is None
                    &&& final(self).window_spec() == ProgressWindow {
                        start_ms: old(self).window_spec().start_ms,
                        bytes: b,
                    }
                }
            }),
    {
        match self.window.observe(now_ms, len) {
            Some(speed) => Some(PatchingStatus::DownloadInProgress(self.done, self.total, speed)),
            None => None,
        }
    }

    /// Counts one more archive as downloaded and checked; the count stops at
    /// the size of the batch.
    pub fn on_archive_done(&mut self)
        requires
            old(self).wf(),
        ensures
            final(self).wf(),
            final(self).done_spec() == if old(self).done_spec() < old(self).total_spec() {
                old(self).done_spec() + 1
            } else {
                old(self).done_spec() as int
            },
            final(self).total_spec() == old(self).total_spec(),
            final(self).window_spec() == old(self).window_spec(),
    {
        if self.done < self.total {
            self.done = self.done + 1;
        }
    }
}

} // verus!
