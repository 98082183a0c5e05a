use vstd::prelude::*;
use vstd::string::StringExecFns;

use crate::apply::ApplyRun;
use crate::command::InterruptibleFnError;
use crate::controller::{run_finished_status, stage_error, stage_prefix, UpdateStage};
use crate::pipeline::{filter_patch_list, pending_after, sorted_by_index, PendingPatch};
use crate::plist::PatchInfo;
use crate::status::PatchingStatus;

verus! {

/// What the stage that ran last reports to the update session.
#[derive(Debug)]
pub enum UpdateEvent {
    /// A mirror answered with its patch list; reading the cache file gave
    /// the index it holds, if any.
    MirrorFound(Vec<PatchInfo>, Option<u64>),
    /// Every pending archive was downloaded, in completion order.
    Downloaded(Vec<PendingPatch>),
    /// The apply run stopped: every patch was applied, or the user
    /// cancelled between two patches.
    Applied,
    /// The running stage failed or was cancelled.
    StageFailed(InterruptibleFnError),
}

/// What the driver of an update does next.
#[derive(Debug)]
pub enum UpdateAction {
    /// Download these patches.
    Download(Vec<PatchInfo>),
    /// Apply the downloaded patches through this run.
    Apply(ApplyRun),
    /// The update is over; send this status.
    Finish(PatchingStatus),
}

/// The message of an event that does not fit the session's stage.
pub open spec fn out_of_order_text() -> Seq<char> {
    "update events came out of order"@
}

/// The action that ends a session fed an event that does not fit its stage.
pub open spec fn ends_out_of_order(r: UpdateAction) -> bool {
    r matches UpdateAction::Finish(PatchingStatus::Error(m)) && m@ == out_of_order_text()
}

/// The sequence of one update: mirror search, downloads, application.
#[derive(Debug)]
pub struct UpdateSession {
    stage: UpdateStage,
    cached: Option<u64>,
    finished: bool,
}

impl UpdateSession {
    pub closed spec fn stage(&self) -> UpdateStage {
        self.stage
    }

    /// The cache's index, as read once a mirror answered.
    pub closed spec fn cached(&self) -> Option<u64> {
        self.cached
    }

    pub closed spec fn finished(&self) -> bool {
        self.finished
    }

    pub fn new() -> (r: Self)
        ensures
            r.stage() == UpdateStage::MirrorSearch,
            !r.finished(),
    {
        UpdateSession { stage: UpdateStage::MirrorSearch, cached: None, finished: false }
    }

    /// Takes the report of the stage that ran and tells what to do next.
    pub fn step(&mut self, event: UpdateEvent) -> (r: UpdateAction)
        ensures
            old(self).finished() ==> final(self).finished() && r is Finish,
            ({
                let s = old(self).stage();
                match event {
                    UpdateEvent::StageFailed(e) => {
                        &&& final(self).finished()
                        &&& !old(self).finished() && e is Interrupted ==> r == UpdateAction::Finish(
                            PatchingStatus::Ready,
                        )
                        &&& !old(self).finished() && e is Error ==> (r matches UpdateAction::Finish(
                            PatchingStatus::Error(m),
                        ) && m@ == stage_prefix(s) + e->Error_0@)
                    },
                    UpdateEvent::MirrorFound(list, cached) => if !old(self).finished() && s
                        == UpdateStage::MirrorSearch {
                        let pending = pending_after(list@, cached);
                        &&& final(self).cached() == cached
                        &&& pending.len() == 0 ==> r == UpdateAction::Finish(PatchingStatus::Ready)
                            && final(self).finished()
                        &&& pending.len() > 0 ==> (r matches UpdateAction::Download(v) && v@ == pending)
                            && final(self).stage() == UpdateStage::Download && !final(self).finished()
                    } else {
                        final(self).finished() && ends_out_of_order(r)
                    },
                    UpdateEvent::Downloaded(v) => if !old(self).finished() && s == UpdateStage::Download {
                        &&& final(self).stage() == UpdateStage::Apply
                        &&& !final(self).finished()
                        &&& r matches UpdateAction::Apply(run) && run.wf() && sorted_by_index(run.queue())
                            && run.queue().to_multiset() == v@.to_multiset() && run.applied() == 0
                            && run.initial() == old(self).cached() && run.recorded() == old(self).cached()
                    } else {
                        final(self).finished() && ends_out_of_order(r)
                    },
                    UpdateEvent::Applied => if !old(self).finished() && s == UpdateStage::Apply {
                        final(self).finished() && r == UpdateAction::Finish(PatchingStatus::Ready)
                    } else {
                        final(self).finished() && ends_out_of_order(r)
                    },
                }
            }),
    {
        let out_of_order = !self.finished && match &event {
            UpdateEvent::StageFailed(_) => false,
            UpdateEvent::MirrorFound(_, _) => self.stage != UpdateStage::MirrorSearch,
            UpdateEvent::Downloaded(_) => self.stage != UpdateStage::Download,
            UpdateEvent::Applied => self.stage != UpdateStage::Apply,
        };
        let already_finished = self.finished && match &event {
            UpdateEvent::StageFailed(_) => false,
            _ => true,
        };
        if out_of_order || already_finished {
            self.finished = true;
            return UpdateAction::Finish(
                PatchingStatus::Error(String::from_str("update events came out of order")),
            );
        }
        match event {
            UpdateEvent::StageFailed(e) => {
                self.finished = true;
                UpdateAction::Finish(run_finished_status(Err(stage_error(self.stage, e))))
            },
            UpdateEvent::MirrorFound(list, cached) => {
                self.cached = cached;
                let pending = filter_patch_list(&list, cached);
                if pending.len() == 0 {
                    self.finished = true;
                    UpdateAction::Finish(PatchingStatus::Ready)
                } else {
                    self.stage = UpdateStage::Download;
                    UpdateAction::Download(pending)
                }
            },
            UpdateEvent::Downloaded(v) => {
                self.stage = UpdateStage::Apply;
                UpdateAction::Apply(ApplyRun::new(v, self.cached))
            },
            UpdateEvent::Applied => {
                self.finished = true;
                UpdateAction::Finish(PatchingStatus::Ready)
            },
        }
    }
}

} // verus!
