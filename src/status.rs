use std::sync::mpsc::Sender;
use vstd::prelude::*;

verus! {

/// What the patcher core reports to the front end.
#[derive(Debug, PartialEq, Eq)]
pub enum PatchingStatus {
    Ready,
    Error(String),
    /// Archives downloaded, archives to download, bytes per second.
    DownloadInProgress(usize, usize, u64),
    /// Patches applied, patches to apply.
    InstallationInProgress(usize, usize),
    ManualPatchApplied(String),
}

/// The status that tells whether patching is running.
pub open spec fn in_progress_status(value: bool) -> PatchingStatus {
    if value {
        PatchingStatus::DownloadInProgress(0, 0, 0)
    } else {
        PatchingStatus::Ready
    }
}

#[verifier::external_type_specification]
#[verifier::external_body]
#[verifier::reject_recursive_types(T)]
pub struct ExSender<T>(Sender<T>);

/// Relies on std::sync::mpsc::Sender::send: it hands the status to the
/// receiving end; a receiver that is gone makes it fail, which is ignored.
#[verifier::external_body]
fn send_status(tx: &Sender<PatchingStatus>, status: PatchingStatus) {
    let _ = tx.send(status);
}

/// Sends statuses to the front end. As ghost state it keeps the list of the
/// statuses handed to the channel: what the library meant to send. Whether
/// each reached the front end (a receiver may be gone) is not recorded.
pub struct UiController {
    status_tx: Sender<PatchingStatus>,
    sent: Ghost<Seq<PatchingStatus>>,
}

impl UiController {
    /// The statuses handed to the channel so far, oldest first.
    pub closed spec fn sent(&self) -> Seq<PatchingStatus> {
        self.sent@
    }

    pub fn new(status_tx: Sender<PatchingStatus>) -> (r: Self)
        ensures
            r.sent() == Seq::<PatchingStatus>::empty(),
    {
        UiController { status_tx, sent: Ghost(Seq::empty()) }
    }

    pub fn dispatch_patching_status(&mut self, status: PatchingStatus)
        ensures
            final(self).sent() == old(self).sent().push(status),
    {
        let ghost s = status;
        send_status(&self.status_tx, status);
        self.sent = Ghost(self.sent@.push(s));
    }

    /// Tells the front end that patching started (a download at zero) or
    /// ended (ready).
    pub fn set_patching_in_progress(&mut self, value: bool)
        ensures
            final(self).sent() == old(self).sent().push(in_progress_status(value)),
    {
        let status = if value {
            PatchingStatus::DownloadInProgress(0, 0, 0)
        } else {
            PatchingStatus::Ready
        };
        self.dispatch_patching_status(status);
    }
}

} // verus!
